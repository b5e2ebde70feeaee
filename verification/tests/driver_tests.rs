use splash_installer::driver::InstallPhase;
use splash_installer::driver::InstallationDriver;
use splash_installer::launcher::LaunchStep;
use splash_installer::launcher::install_exe_path;
use splash_installer::launcher::launch_decision;

#[test]
fn successful_run_completes_and_cleans_up() {
    let mut d = InstallationDriver::start();
    assert_eq!(d.phase, InstallPhase::Preparing);
    assert!(!d.completion);
    d.payload_written(true);
    assert_eq!(d.phase, InstallPhase::Running);
    let directives = d.installer_exited(true);
    assert!(directives.stop_estimator);
    assert_eq!(directives.forced_progress, 100);
    d.finalize();
    assert_eq!(d.phase, InstallPhase::Complete);
    assert!(d.completion);
    assert!(d.temps_deleted);
    assert_eq!(d.exit_success, Some(true));
}

#[test]
fn failed_exit_still_completes_and_cleans_up() {
    // The install process exits non-zero: the completion signal still
    // flips, the temp files are still deleted, and the exit status is
    // only recorded for reporting.
    let mut d = InstallationDriver::start();
    d.payload_written(true);
    let directives = d.installer_exited(false);
    assert!(directives.stop_estimator);
    assert_eq!(directives.forced_progress, 100);
    d.finalize();
    assert!(d.completion);
    assert!(d.temps_deleted);
    assert_eq!(d.exit_success, Some(false));
}

#[test]
fn payload_failure_aborts_the_run() {
    let mut d = InstallationDriver::start();
    d.payload_written(false);
    assert_eq!(d.phase, InstallPhase::Aborted);
    assert!(!d.completion);
}

#[test]
fn launch_runs_as_soon_as_the_executable_exists() {
    assert_eq!(launch_decision(0, true), LaunchStep::Run);
    assert_eq!(launch_decision(4, true), LaunchStep::Run);
}

#[test]
fn launch_retries_then_reports_the_error() {
    for attempt in 0..4 {
        assert_eq!(launch_decision(attempt, false), LaunchStep::Retry);
    }
    // The fifth and last attempt surfaces the only user-visible error.
    assert_eq!(launch_decision(4, false), LaunchStep::ReportError);
}

#[test]
fn install_path_uses_local_app_data() {
    let p = install_exe_path(Some(String::from("D:\\Profiles\\bob\\AppData\\Local")), None);
    assert_eq!(p, "D:\\Profiles\\bob\\AppData\\Local\\Zayit\\Zayit.exe");
}

#[test]
fn install_path_falls_back_to_the_user_profile() {
    let p = install_exe_path(None, Some(String::from("bob")));
    assert_eq!(p, "C:\\Users\\bob\\AppData\\Local\\Zayit\\Zayit.exe");
    let q = install_exe_path(None, None);
    assert_eq!(q, "C:\\Users\\User\\AppData\\Local\\Zayit\\Zayit.exe");
}
