//! The installation driver's control flow.
//!
//! The driver materialises the installer payload, runs the external install
//! process with the estimator tailing its log, and - whatever the process's
//! exit status - stops the estimator, forces progress to full, deletes the
//! temporary artifacts unconditionally, and flips the completion signal
//! exactly once.  The file, process and thread work itself happens outside
//! the library; this state machine fixes the order and the guarantees.

use vstd::prelude::*;

verus! {

/// The progress value forced once the installer process has returned.
pub const COMPLETE_PROGRESS: u32 = 100;

/// Where the driver stands in its run.
#[derive(Clone, Copy, PartialEq, Eq, Structural, Debug)]
pub enum InstallPhase {
    /// Writing the payload to its temporary location.
    Preparing,
    /// The external install process is running, the estimator tailing.
    Running,
    /// The process has returned; cleanup is owed.
    Finalizing,
    /// Cleanup done, completion signalled.
    Complete,
    /// The payload could not be written; nothing was started.
    Aborted,
}

/// What the driver orders when the installer process has returned,
/// whatever its exit status.
#[derive(Clone, Copy, PartialEq, Eq, Structural, Debug)]
pub struct ExitDirectives {
    /// Signal the estimator to stop and wait for it.
    pub stop_estimator: bool,
    /// Store this in the shared progress counter.
    pub forced_progress: u32,
}

/// The driver's state.  `completion` models the completion signal: a
/// single boolean flip, written exactly once, never reset.
pub struct InstallationDriver {
    pub phase: InstallPhase,
    /// The recorded exit status of the install process, once it returned.
    pub exit_success: Option<bool>,
    /// The completion signal the orchestrator polls.
    pub completion: bool,
    /// Whether the temporary payload and log have been deleted.
    pub temps_deleted: bool,
}

impl InstallationDriver {
    pub open spec fn initial() -> Self {
        InstallationDriver {
            phase: InstallPhase::Preparing,
            exit_success: None,
            completion: false,
            temps_deleted: false,
        }
    }

    /// Begin a run: the payload is about to be written.
    pub fn start() -> (d: Self)
        ensures
            d == Self::initial(),
    {
        InstallationDriver {
            phase: InstallPhase::Preparing,
            exit_success: None,
            completion: false,
            temps_deleted: false,
        }
    }

    /// Writing the payload succeeded or failed.  Failure is fatal to the
    /// run: nothing useful can proceed without the payload.
    pub open spec fn payload_step(self, ok: bool) -> Self {
        if ok {
            InstallationDriver { phase: InstallPhase::Running, ..self }
        } else {
            InstallationDriver { phase: InstallPhase::Aborted, ..self }
        }
    }

    /// Record the outcome of writing the payload.
    pub fn payload_written(&mut self, ok: bool)
        requires
            old(self).phase is Preparing,
        ensures
            *final(self) == old(self).payload_step(ok),
    {
        if ok {
            self.phase = InstallPhase::Running;
        } else {
            self.phase = InstallPhase::Aborted;
        }
    }

    /// The install process returned with the given success status.
    pub open spec fn exited_step(self, success: bool) -> Self {
        InstallationDriver {
            phase: InstallPhase::Finalizing,
            exit_success: Some(success),
            ..self
        }
    }

    /// Record the process's return.  A failed exit status is recorded - it
    /// will be reported - but changes nothing else: the estimator is
    /// stopped and progress forced to full either way.
    pub fn installer_exited(&mut self, success: bool) -> (d: ExitDirectives)
        requires
            old(self).phase is Running,
        ensures
            *final(self) == old(self).exited_step(success),
            (d == ExitDirectives { stop_estimator: true, forced_progress: COMPLETE_PROGRESS }),
    {
        self.phase = InstallPhase::Finalizing;
        self.exit_success = Some(success);
        ExitDirectives { stop_estimator: true, forced_progress: COMPLETE_PROGRESS }
    }

    /// Cleanup and completion: temp files deleted unconditionally, then
    /// the completion signal flipped.
    pub open spec fn finish_step(self) -> Self {
        InstallationDriver {
            phase: InstallPhase::Complete,
            completion: true,
            temps_deleted: true,
            ..self
        }
    }

    /// Finish the run.  This runs after every process return, successful
    /// or not: cleanup is an invariant, not best-effort.
    pub fn finalize(&mut self)
        requires
            old(self).phase is Finalizing,
        ensures
            *final(self) == old(self).finish_step(),
            final(self).completion,
            final(self).temps_deleted,
            final(self).exit_success == old(self).exit_success,
    {
        self.phase = InstallPhase::Complete;
        self.completion = true;
        self.temps_deleted = true;
    }
}

/// A whole run for a payload that was written and an install process that
/// returned with `success`.
pub open spec fn driver_run(success: bool) -> InstallationDriver {
    InstallationDriver::initial().payload_step(true).exited_step(success).finish_step()
}

/// Whatever the installer's exit status - success or failure - the run
/// ends complete: the completion signal is set, the temporary artifacts
/// are deleted, and the exit status is only recorded for reporting.  The
/// orchestrator therefore always proceeds to the launch attempt.
pub proof fn lemma_run_completes_despite_failure(success: bool)
    ensures
        driver_run(success).phase is Complete,
        driver_run(success).completion,
        driver_run(success).temps_deleted,
        driver_run(success).exit_success == Some(success),
{
}

} // verus!
