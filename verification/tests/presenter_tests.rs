use splash_installer::presenter::LoopMessageAction;
use splash_installer::presenter::MaintenanceAction;
use splash_installer::presenter::MessageAction;
use splash_installer::presenter::SplashPresenter;
use splash_installer::presenter::centered_origin;
use splash_installer::presenter::frame_due;
use splash_installer::presenter::loop_message_action;
use splash_installer::presenter::maintenance_action;
use splash_installer::presenter::visibility_check_due;
use splash_installer::presenter::window_message_action;

#[test]
fn update_with_invalid_handle_fails_without_mutation() {
    let mut p = SplashPresenter::start();
    let ok = p.update(true, true, 40);
    assert!(ok);
    assert_eq!(p.last_displayed, 40);
    // The handle became invalid: the update reports failure and leaves
    // the shared state untouched, so the caller can recreate the window
    // and redraw at the same progress.
    let ok = p.update(false, false, 55);
    assert!(!ok);
    assert_eq!(p.last_displayed, 40);
    // Recreated window: the same update now succeeds.
    let ok = p.update(true, true, 55);
    assert!(ok);
    assert_eq!(p.last_displayed, 55);
}

#[test]
fn update_with_failed_present_fails_without_mutation() {
    let mut p = SplashPresenter::start();
    let ok = p.update(true, false, 25);
    assert!(!ok);
    assert_eq!(p.last_displayed, 0);
}

#[test]
fn maintenance_recreates_exactly_when_invalid() {
    assert_eq!(maintenance_action(false), MaintenanceAction::Recreate);
    assert_eq!(maintenance_action(true), MaintenanceAction::EnsureVisible);
}

#[test]
fn close_and_destroy_are_swallowed() {
    assert_eq!(window_message_action(0x0010), MessageAction::Swallow);
    assert_eq!(window_message_action(0x0002), MessageAction::Swallow);
    assert_eq!(window_message_action(0x000F), MessageAction::PassOn);
    assert_eq!(window_message_action(0x0200), MessageAction::PassOn);
}

#[test]
fn quit_requests_are_discarded() {
    assert_eq!(loop_message_action(0x0012), LoopMessageAction::Discard);
    assert_eq!(loop_message_action(0x0010), LoopMessageAction::Dispatch);
}

#[test]
fn window_is_centered_on_the_display() {
    assert_eq!(centered_origin(1920, 800), 560);
    assert_eq!(centered_origin(1080, 600), 240);
    assert_eq!(centered_origin(801, 800), 0);
    // A window wider than the display still centers, off-screen left.
    assert_eq!(centered_origin(800, 1000), -100);
}

#[test]
fn frame_and_visibility_cadences() {
    assert!(!frame_due(32, 0));
    assert!(frame_due(33, 0));
    assert!(frame_due(1000, 900));
    assert!(!visibility_check_due(499, 0));
    assert!(visibility_check_due(500, 0));
    assert!(!visibility_check_due(1300, 900));
}
