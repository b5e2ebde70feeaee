use splash_installer::compose::compose;
use splash_installer::splash::SplashImage;

// An 8 x 80 test image: margin = 1, bar columns 1..7, bar rows 1..5.
const W: usize = 8;
const H: usize = 80;

fn test_image() -> SplashImage {
    SplashImage { width: W as u32, height: H as u32, pixels: vec![7u8; W * H * 4] }
}

fn byte_index(x: usize, y: usize, ch: usize) -> usize {
    (y * W + x) * 4 + ch
}

fn is_accent(frame: &[u8], x: usize, y: usize) -> bool {
    frame[byte_index(x, y, 0)] == 55 && frame[byte_index(x, y, 1)] == 175 && frame[byte_index(
        x,
        y,
        2,
    )] == 212 && frame[byte_index(x, y, 3)] == 255
}

fn is_background(frame: &[u8], x: usize, y: usize) -> bool {
    frame[byte_index(x, y, 0)] == 30 && frame[byte_index(x, y, 1)] == 30 && frame[byte_index(
        x,
        y,
        2,
    )] == 30 && frame[byte_index(x, y, 3)] == 255
}

#[test]
fn compose_zero_percent_is_all_background() {
    let img = test_image();
    let frame = compose(&img, 0);
    assert_eq!(frame.len(), W * H * 4);
    for y in 1..5 {
        for x in 1..7 {
            assert!(is_background(&frame, x, y));
        }
    }
}

#[test]
fn compose_full_percent_is_all_accent() {
    let img = test_image();
    let frame = compose(&img, 100);
    for y in 1..5 {
        for x in 1..7 {
            assert!(is_accent(&frame, x, y));
        }
    }
}

#[test]
fn compose_half_fills_from_the_right() {
    let img = test_image();
    let frame = compose(&img, 50);
    // bar width 6, filled = 6 * 50 / 100 = 3, fill starts at column 7 - 3 = 4.
    for y in 1..5 {
        for x in 1..4 {
            assert!(is_background(&frame, x, y));
        }
        for x in 4..7 {
            assert!(is_accent(&frame, x, y));
        }
    }
}

#[test]
fn compose_leaves_pixels_outside_the_bar_unchanged() {
    let img = test_image();
    let frame = compose(&img, 50);
    for y in 0..H {
        for x in 0..W {
            let inside = (1..5).contains(&y) && (1..7).contains(&x);
            if !inside {
                for ch in 0..4 {
                    assert_eq!(frame[byte_index(x, y, ch)], 7);
                }
            }
        }
    }
}

#[test]
fn compose_fill_is_monotone_in_progress() {
    let img = test_image();
    let mut last_filled: usize = 0;
    for p in 0..=100u32 {
        let frame = compose(&img, p);
        let filled = (1..7).filter(|&x| is_accent(&frame, x, 1)).count();
        assert!(filled >= last_filled);
        // The filled region is contiguous and anchored at the right edge.
        for x in (7 - filled)..7 {
            assert!(is_accent(&frame, x, 1));
        }
        for x in 1..(7 - filled) {
            assert!(is_background(&frame, x, 1));
        }
        assert_eq!(filled, 6 * (p as usize) / 100);
        last_filled = filled;
    }
}

#[test]
fn compose_is_deterministic_for_recreated_windows() {
    // After the window is recreated the same frame is redrawn: composing
    // the same image at the same progress yields identical pixels.
    let img = test_image();
    let first = compose(&img, 37);
    let second = compose(&img, 37);
    assert_eq!(first, second);
}

#[test]
fn compose_tolerates_images_without_room_for_the_bar() {
    let img = SplashImage { width: 4, height: 10, pixels: vec![9u8; 4 * 10 * 4] };
    let frame = compose(&img, 60);
    assert_eq!(frame, vec![9u8; 4 * 10 * 4]);
}

#[test]
fn compose_clamps_tiny_widths() {
    // Width 1: margin 0, bar width clamps handle the degenerate geometry.
    let img = SplashImage { width: 1, height: 80, pixels: vec![3u8; 80 * 4] };
    let frame = compose(&img, 100);
    assert_eq!(frame.len(), 80 * 4);
    // The single bar column is filled at 100 percent.
    assert_eq!(frame[(1 * 1 + 0) * 4], 55);
}
