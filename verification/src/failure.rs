//! Which failures end the startup and which are passed over. A failure that
//! would leave the server unsupervised is fatal where it is detected; a
//! failure on a clean-up path is absorbed, so that the clean-up runs to its
//! end.

use vstd::prelude::*;
use crate::lock_file::{LockOp, LockOpView};

verus! {

/// A step of the lifecycle that may fail.
#[derive(Clone, Copy, Debug, PartialEq, Eq, Structural)]
pub enum Step {
    /// Finding and creating the base directory.
    ResolveBaseDir,
    /// Sending the termination signal to a process left by an earlier run.
    SignalStaleProcess,
    /// Spawning the child.
    SpawnChild,
    /// Writing the lock record of the child just spawned.
    WriteLockRecord,
    /// Terminating the child at shutdown.
    TerminateChild,
    /// Deleting the lock record.
    ClearLockRecord,
}

/// What a failure does to the application.
#[derive(Clone, Copy, Debug, PartialEq, Eq, Structural)]
pub enum Severity {
    /// The application stops at once, with a diagnostic. Nothing is retried.
    Fatal,
    /// The failure is logged at most, and the application goes on.
    Absorbed,
}

/// What a failure of `step` does to the application.
pub open spec fn severity_of(step: Step) -> Severity {
    match step {
        Step::ResolveBaseDir => Severity::Fatal,
        Step::SpawnChild => Severity::Fatal,
        Step::WriteLockRecord => Severity::Fatal,
        Step::SignalStaleProcess => Severity::Absorbed,
        Step::TerminateChild => Severity::Absorbed,
        Step::ClearLockRecord => Severity::Absorbed,
    }
}

/// The diagnostic that the application stops with when `step` fails; none
/// where the failure is absorbed.
pub open spec fn diagnostic_of(step: Step) -> Option<Seq<char>> {
    match step {
        Step::ResolveBaseDir => Some("Failed to initialize config"@),
        Step::SpawnChild => Some("Failed to spawn sidecar"@),
        Step::WriteLockRecord => Some("Failed to write PID file"@),
        Step::SignalStaleProcess => None,
        Step::TerminateChild => None,
        Step::ClearLockRecord => None,
    }
}

/// The step that carries out `op`.
pub open spec fn step_of(op: LockOpView) -> Step {
    match op {
        LockOpView::Write { .. } => Step::WriteLockRecord,
        LockOpView::Remove { .. } => Step::ClearLockRecord,
    }
}

impl Step {
    /// What a failure of this step does to the application.
    pub fn severity(&self) -> (severity: Severity)
        ensures
            severity == severity_of(*self),
    {
        match self {
            Step::ResolveBaseDir | Step::SpawnChild | Step::WriteLockRecord => Severity::Fatal,
            Step::SignalStaleProcess | Step::TerminateChild | Step::ClearLockRecord => {
                Severity::Absorbed
            },
        }
    }

    /// Whether a failure of this step is fatal.
    pub fn is_fatal(&self) -> (fatal: bool)
        ensures
            fatal == (severity_of(*self) == Severity::Fatal),
    {
        match self.severity() {
            Severity::Fatal => true,
            Severity::Absorbed => false,
        }
    }
}

impl Step {
    /// The diagnostic to stop with when this step fails; none where the
    /// failure is absorbed.
    pub fn diagnostic(&self) -> (text: Option<&'static str>)
        ensures
            match text {
                Some(text) => diagnostic_of(*self) == Some(text@),
                None => diagnostic_of(*self) is None,
            },
            text is Some <==> severity_of(*self) == Severity::Fatal,
    {
        match self {
            Step::ResolveBaseDir => Some("Failed to initialize config"),
            Step::SpawnChild => Some("Failed to spawn sidecar"),
            Step::WriteLockRecord => Some("Failed to write PID file"),
            Step::SignalStaleProcess | Step::TerminateChild | Step::ClearLockRecord => None,
        }
    }
}

impl LockOp {
    /// The step that carries out this operation.
    pub fn step(&self) -> (step: Step)
        ensures
            step == step_of(self@),
    {
        match self {
            LockOp::Write { .. } => Step::WriteLockRecord,
            LockOp::Remove { .. } => Step::ClearLockRecord,
        }
    }
}

} // verus!
