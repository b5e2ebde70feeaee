//! Progress-synchronized splash renderer and installer-progress estimator.
//!
//! The library holds the logic of a splash-screen installer bootstrapper:
//! compositing a progress bar over a decoded splash image, estimating
//! installation progress from an installer's free-text log, smoothing that
//! estimate for display, and the state machines that keep the on-screen
//! window alive and drive the install to completion.  All window, file,
//! process and thread plumbing lives outside the library and feeds it
//! plain values.

pub mod animator;
pub mod compose;
pub mod driver;
pub mod estimator;
pub mod launcher;
pub mod presenter;
pub mod splash;
pub mod text;

pub use text::ascii_bytes;
pub use text::contains_pattern;
pub use text::find_pattern;
pub use text::lower_byte;
