//! Keeping the splash window alive and up to date.
//!
//! The on-screen window can be destroyed or hidden by other processes at
//! any time.  The presenter re-validates the handle before every use,
//! orders a recreation when it is gone, re-asserts visibility when it is
//! not, and swallows outside close and destroy requests while the
//! installation runs: only the orchestrator's own completion path may end
//! the process.  The window calls themselves happen outside the library;
//! these functions decide, and track the last progress actually shown.

use vstd::prelude::*;

verus! {

/// How often window validity and visibility are re-checked.
pub const VISIBILITY_CHECK_INTERVAL_MS: u64 = 500;

/// Target cadence of animation frames.
pub const FRAME_INTERVAL_MS: u64 = 33;

/// The window message asking the window to close.
pub const CLOSE_MESSAGE: u32 = 0x0010;

/// The window message notifying that the window was destroyed.
pub const DESTROY_MESSAGE: u32 = 0x0002;

/// The thread message asking the message loop to quit.
pub const QUIT_MESSAGE: u32 = 0x0012;

/// What the periodic maintenance pass does to the window.
#[derive(Clone, Copy, PartialEq, Eq, Structural, Debug)]
pub enum MaintenanceAction {
    /// The handle is invalid: recreate the window and redraw the last
    /// known progress.
    Recreate,
    /// The handle is valid: defensively re-assert that it is shown.
    EnsureVisible,
}

/// What the window procedure does with an incoming message.
#[derive(Clone, Copy, PartialEq, Eq, Structural, Debug)]
pub enum MessageAction {
    /// Swallow the message: the window stays alive and the loop runs on.
    Swallow,
    /// Hand the message to the default handler.
    PassOn,
}

/// What the message loop does with a dequeued message.
#[derive(Clone, Copy, PartialEq, Eq, Structural, Debug)]
pub enum LoopMessageAction {
    /// Drop the message: outside quit requests do not end the loop.
    Discard,
    /// Translate and dispatch it.
    Dispatch,
}

/// The presenter's shared state: the progress value last shown on screen.
pub struct SplashPresenter {
    pub last_displayed: u32,
}

impl SplashPresenter {
    pub fn start() -> (p: Self)
        ensures
            p.last_displayed == 0,
    {
        SplashPresenter { last_displayed: 0 }
    }

    /// Record the outcome of one frame update.  `window_valid` is the
    /// handle re-validation made before the attempt; `presented` whether
    /// the buffered swap succeeded.  With an invalid handle or a failed
    /// swap the update reports failure and mutates nothing, so the caller
    /// can recreate the window and redraw at the same progress.
    pub fn update(&mut self, window_valid: bool, presented: bool, display: u32) -> (ok: bool)
        ensures
            ok == (window_valid && presented),
            !ok ==> *final(self) == *old(self),
            ok ==> final(self).last_displayed == display,
    {
        if window_valid && presented {
            self.last_displayed = display;
            true
        } else {
            false
        }
    }
}

/// Decide the periodic maintenance pass: recreate exactly when the handle
/// has become invalid, otherwise re-assert visibility.
pub fn maintenance_action(window_valid: bool) -> (a: MaintenanceAction)
    ensures
        (a is Recreate) == !window_valid,
        (a is EnsureVisible) == window_valid,
{
    if window_valid {
        MaintenanceAction::EnsureVisible
    } else {
        MaintenanceAction::Recreate
    }
}

/// Is a maintenance pass due?
pub fn visibility_check_due(now_ms: u64, last_check_ms: u64) -> (due: bool)
    requires
        last_check_ms <= now_ms,
    ensures
        due == (now_ms - last_check_ms >= VISIBILITY_CHECK_INTERVAL_MS),
{
    now_ms - last_check_ms >= VISIBILITY_CHECK_INTERVAL_MS
}

/// Is an animation frame due?
pub fn frame_due(now_ms: u64, last_frame_ms: u64) -> (due: bool)
    requires
        last_frame_ms <= now_ms,
    ensures
        due == (now_ms - last_frame_ms >= FRAME_INTERVAL_MS),
{
    now_ms - last_frame_ms >= FRAME_INTERVAL_MS
}

/// The window procedure's decision: swallow close requests and destroy
/// notifications while the installation runs, pass everything else on.
pub fn window_message_action(message: u32) -> (a: MessageAction)
    ensures
        (a is Swallow) == (message == CLOSE_MESSAGE || message == DESTROY_MESSAGE),
{
    if message == CLOSE_MESSAGE || message == DESTROY_MESSAGE {
        MessageAction::Swallow
    } else {
        MessageAction::PassOn
    }
}

/// Where a window of the given extent starts so that it is centered on a
/// display of the given extent (one axis).  A window larger than the
/// display is centered too, at a negative origin.
pub fn centered_origin(screen_extent: i32, window_extent: i32) -> (origin: i32)
    requires
        0 <= screen_extent <= 0x100000,
        0 <= window_extent <= 0x100000,
    ensures
        window_extent <= screen_extent ==> origin == (screen_extent - window_extent) / 2,
        window_extent > screen_extent ==> origin == -((window_extent - screen_extent) / 2),
{
    if window_extent <= screen_extent {
        (screen_extent - window_extent) / 2
    } else {
        -((window_extent - screen_extent) / 2)
    }
}

/// The message loop's decision: discard outside quit requests - only the
/// orchestrator's completion path ends the loop - and dispatch the rest.
pub fn loop_message_action(message: u32) -> (a: LoopMessageAction)
    ensures
        (a is Discard) == (message == QUIT_MESSAGE),
{
    if message == QUIT_MESSAGE {
        LoopMessageAction::Discard
    } else {
        LoopMessageAction::Dispatch
    }
}

} // verus!
