use splash_installer::estimator::LogProgressEstimator;
use splash_installer::estimator::TailPhase;
use splash_installer::estimator::publish;
use splash_installer::estimator::scan_chunk;
use splash_installer::find_pattern;

fn bytes(s: &str) -> Vec<u8> {
    s.as_bytes().to_vec()
}

#[test]
fn scan_finds_single_milestone() {
    let content = bytes("MSI (s) (A4:B0): Doing action: something\nAction start 14:02:12: CostInitialize.\n");
    assert_eq!(scan_chunk(&content, 0), 15);
}

#[test]
fn scan_is_case_insensitive() {
    let content = bytes("... INSTALLFILES ...");
    assert_eq!(scan_chunk(&content, 0), 40);
    let content2 = bytes("... InstallFiles ...");
    assert_eq!(scan_chunk(&content2, 0), 40);
}

#[test]
fn scan_takes_maximum_of_matches() {
    let content = bytes("createfolders then installfiles then writeregistryvalues");
    assert_eq!(scan_chunk(&content, 0), 55);
    let reordered = bytes("writeregistryvalues then installfiles then createfolders");
    assert_eq!(scan_chunk(&reordered, 0), 55);
}

#[test]
fn scan_keeps_higher_floor() {
    let content = bytes("no milestone here");
    assert_eq!(scan_chunk(&content, 70), 70);
    let low = bytes("action start");
    assert_eq!(scan_chunk(&low, 70), 70);
}

#[test]
fn scan_terminal_milestones_floor_to_100() {
    let done = bytes("Installation completed successfully.");
    assert_eq!(scan_chunk(&done, 0), 100);
    let op_done = bytes("Windows Installer: Installation operation completed");
    assert_eq!(scan_chunk(&op_done, 12), 100);
}

#[test]
fn scan_all_milestone_levels() {
    assert_eq!(scan_chunk(&bytes("Generating script operations"), 0), 10);
    assert_eq!(scan_chunk(&bytes("CreateFolders."), 0), 25);
    assert_eq!(scan_chunk(&bytes("RegisterProduct."), 0), 70);
    assert_eq!(scan_chunk(&bytes("PublishProduct."), 0), 80);
    assert_eq!(scan_chunk(&bytes("InstallFinalize."), 0), 90);
}

#[test]
fn find_pattern_respects_boundaries() {
    assert!(find_pattern(&bytes("xxinstallfilesxx"), &bytes("installfiles")));
    assert!(!find_pattern(&bytes("installfile"), &bytes("installfiles")));
    assert!(!find_pattern(&bytes(""), &bytes("installfiles")));
    assert!(find_pattern(&bytes("abc"), &bytes("")));
}

#[test]
fn publish_never_regresses() {
    assert_eq!(publish(50, 20), 50);
    assert_eq!(publish(20, 50), 50);
    assert_eq!(publish(0, 0), 0);
    assert_eq!(publish(100, 99), 100);
}

#[test]
fn published_progress_is_monotone_over_chunks() {
    let chunks = [
        bytes("Action start 14:02:12: CostInitialize."),
        bytes("nothing of note"),
        bytes("InstallFiles. Copying new files"),
        bytes("Action start again"),
        bytes("RegisterProduct. Registering product"),
    ];
    let mut est = LogProgressEstimator::start();
    est.poll_waiting(false, true);
    assert_eq!(est.phase, TailPhase::Tailing);
    let mut published: u32 = 0;
    let mut last: u32 = 0;
    for c in chunks.iter() {
        published = est.poll_tailing(false, Some(c), published);
        assert!(published >= last);
        last = published;
    }
    assert_eq!(published, 70);
}

#[test]
fn waiting_stop_signal_stops_without_tailing() {
    let mut est = LogProgressEstimator::start();
    est.poll_waiting(true, false);
    assert_eq!(est.phase, TailPhase::Stopped);
    assert_eq!(est.local_floor, 0);
}

#[test]
fn waiting_times_out_silently() {
    let mut est = LogProgressEstimator::start();
    let mut polls: u32 = 0;
    while est.phase == TailPhase::WaitingForFile {
        est.poll_waiting(false, false);
        polls += 1;
        assert!(polls < 1000);
    }
    assert_eq!(est.phase, TailPhase::Stopped);
    assert_eq!(est.local_floor, 0);
    // 300 polls accumulate the 30-second timeout; the 301st stops.
    assert_eq!(polls, 301);
}

#[test]
fn action_start_only_log_caps_at_15() {
    let mut est = LogProgressEstimator::start();
    est.poll_waiting(false, true);
    let mut published: u32 = 0;
    for _ in 0..10 {
        let chunk = bytes("Action start 14:02:12: SomeAction.");
        published = est.poll_tailing(false, Some(&chunk), published);
        assert_eq!(published, 15);
    }
    published = est.poll_tailing(false, None, published);
    assert_eq!(published, 15);
    // The process returns: the driver forces the counter to 100.
    assert_eq!(publish(published, 100), 100);
}

#[test]
fn tailing_stops_on_signal_and_keeps_published() {
    let mut est = LogProgressEstimator::start();
    est.poll_waiting(false, true);
    let chunk = bytes("installfiles");
    let published = est.poll_tailing(false, Some(&chunk), 0);
    assert_eq!(published, 40);
    let after = est.poll_tailing(true, Some(&chunk), published);
    assert_eq!(after, 40);
    assert_eq!(est.phase, TailPhase::Stopped);
}

#[test]
fn read_failure_is_a_no_op() {
    let mut est = LogProgressEstimator::start();
    est.poll_waiting(false, true);
    let published = est.poll_tailing(false, None, 0);
    assert_eq!(published, 0);
    assert_eq!(est.phase, TailPhase::Tailing);
    est.halt();
    assert_eq!(est.phase, TailPhase::Stopped);
}
