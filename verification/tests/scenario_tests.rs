use splash_installer::animator::ProgressAnimator;
use splash_installer::driver::InstallationDriver;
use splash_installer::estimator::LogProgressEstimator;
use splash_installer::estimator::TailPhase;
use splash_installer::estimator::publish;
use splash_installer::launcher::LaunchStep;
use splash_installer::launcher::launch_decision;

#[test]
fn scenario_log_never_appears() {
    // The log file never appears: the estimator waits out its timeout and
    // reports nothing.
    let mut est = LogProgressEstimator::start();
    while est.phase == TailPhase::WaitingForFile {
        est.poll_waiting(false, false);
    }
    assert_eq!(est.phase, TailPhase::Stopped);
    assert_eq!(est.local_floor, 0);
    let mut published: u32 = 0;

    // The animator's time-based floor still drives visible motion, up to
    // its 85 percent cap.
    let mut anim = ProgressAnimator::start();
    let mut elapsed: u64 = 0;
    let mut display: u32 = 0;
    while elapsed < 60_000 {
        elapsed += 33;
        display = anim.tick(published, elapsed);
    }
    assert_eq!(display, 85);

    // The install process exits: the driver forces progress to 100 and
    // the finish ramp brings the display to exactly 100.
    let mut d = InstallationDriver::start();
    d.payload_written(true);
    let directives = d.installer_exited(true);
    published = publish(published, directives.forced_progress);
    assert_eq!(published, 100);
    d.finalize();
    assert!(d.completion);
    while anim.finish_pending() {
        display = anim.finish_tick();
    }
    assert_eq!(display, 100);
}

#[test]
fn scenario_failed_install_still_attempts_launch() {
    // Non-zero exit: completion still flips, cleanup still happens, and
    // the orchestrator still walks the launch attempts, which end in the
    // one user-visible error when the executable never appears.
    let mut d = InstallationDriver::start();
    d.payload_written(true);
    let _ = d.installer_exited(false);
    d.finalize();
    assert!(d.completion);
    assert!(d.temps_deleted);
    let mut attempt: u32 = 0;
    let outcome = loop {
        match launch_decision(attempt, false) {
            LaunchStep::Run => unreachable!(),
            LaunchStep::Retry => attempt += 1,
            LaunchStep::ReportError => break "error shown",
        }
    };
    assert_eq!(outcome, "error shown");
    assert_eq!(attempt, 4);
}
