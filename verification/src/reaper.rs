//! The stale-instance reaper: at startup, before a new server is spawned, a
//! record left by an earlier run names a process to terminate, and is then
//! erased whether or not that process could be signalled.
//!
//! Termination is requested, never awaited: the new server may start while
//! the old one is still going down. That race is accepted, so that a new
//! instance can always start.

use vstd::prelude::*;
use crate::config::{Config, ConfigView};
use crate::lock_file::{
    file_at, lemma_record_round_trip, record_of, record_text, Disk, LockFile, LockOp, LockOpView,
};

verus! {

/// What a signal asks of the process that receives it.
#[derive(Clone, Copy, Debug, PartialEq, Eq, Structural)]
pub enum SignalKind {
    /// To terminate, in its own time.
    Terminate,
}

/// A signal to one process.
#[derive(Clone, Copy, Debug, PartialEq, Eq, Structural)]
pub struct Signal {
    /// The number of the process. It is positive: zero and the negative
    /// numbers stand for groups of processes, and are never asked for.
    pub target: i32,
    /// What the signal asks for.
    pub kind: SignalKind,
}

/// One thing that the reaper asks for.
#[derive(Clone, Debug, PartialEq, Eq)]
pub enum ReapStep {
    /// Send the signal. Its outcome is not to be looked at.
    Signal(Signal),
    /// Make the change that erases the record.
    Clear(LockOp),
}

/// A `ReapStep` as plain values.
pub ghost enum ReapStepView {
    Signal(Signal),
    Clear(LockOpView),
}

impl View for ReapStep {
    type V = ReapStepView;

    open spec fn view(&self) -> ReapStepView {
        match self {
            ReapStep::Signal(signal) => ReapStepView::Signal(*signal),
            ReapStep::Clear(op) => ReapStepView::Clear(op@),
        }
    }
}

impl ReapStepView {
    /// The disk once the step has been taken on `disk`. A signal changes no
    /// file.
    pub open spec fn on(self, disk: Disk) -> Disk {
        match self {
            ReapStepView::Signal(_) => disk,
            ReapStepView::Clear(op) => op.on(disk),
        }
    }
}

/// Steps as plain values, in their order.
pub open spec fn reap_steps_view(steps: Seq<ReapStep>) -> Seq<ReapStepView> {
    Seq::new(steps.len(), |i: int| steps[i]@)
}

/// The disk once `steps` have been taken on `disk`, one after the other.
pub open spec fn after_reaping(steps: Seq<ReapStepView>, disk: Disk) -> Disk
    decreases steps.len(),
{
    if steps.len() == 0 {
        disk
    } else {
        after_reaping(steps.drop_first(), steps[0].on(disk))
    }
}

/// The number of the one process that the identifier `pid` stands for. Zero
/// stands for no process, and neither does an identifier above `i32::MAX`:
/// handed to the signal facility, the one would address the caller's own
/// process group and the other, read as a negative number, a group or every
/// process.
pub open spec fn signal_target_of(pid: u32) -> Option<i32> {
    if 0 < pid <= i32::MAX {
        Some(pid as i32)
    } else {
        None
    }
}

/// What the reaper asks for, in order, given what was found at the lock
/// file's path. With an identifier on record: a termination signal to the
/// process it stands for, then the erasure of the record. Where the
/// identifier stands for no process there is nothing to signal, and the
/// record is erased all the same. With nothing on record the reaper asks for
/// nothing, and the file stays as it is.
pub open spec fn reaping_of(config: ConfigView, found: Option<Seq<char>>) -> Seq<ReapStepView> {
    let clear = ReapStepView::Clear(LockOpView::Remove { path: config.pid_file_path() });
    match record_of(found) {
        Some(pid) => match signal_target_of(pid) {
            Some(target) => seq![
                ReapStepView::Signal(Signal { target, kind: SignalKind::Terminate }),
                clear,
            ],
            None => seq![clear],
        },
        None => Seq::empty(),
    }
}

/// The number of the process to signal for the identifier `pid`, where the
/// identifier stands for one process.
pub fn signal_target(pid: u32) -> (target: Option<i32>)
    ensures
        target == signal_target_of(pid),
{
    if 0 < pid && pid <= 0x7fff_ffff {
        Some(pid as i32)
    } else {
        None
    }
}

impl Config {
    /// Runs the reaper on what was found at the lock file's path. The steps
    /// are to be taken in the order in which they come.
    pub fn cleanup_existing_server(&self, found: &LockFile) -> (steps: Vec<ReapStep>)
        ensures
            reap_steps_view(steps@) == reaping_of(self@, found@),
    {
        let mut steps: Vec<ReapStep> = Vec::new();
        if let Some(pid) = self.read_pid_file(found) {
            if let Some(target) = signal_target(pid) {
                steps.push(ReapStep::Signal(Signal { target, kind: SignalKind::Terminate }));
            }
            steps.push(ReapStep::Clear(self.cleanup_pid_file()));
        }
        assert(reap_steps_view(steps@) =~= reaping_of(self@, found@));
        steps
    }
}

/// The reaper signals at most once, and only a single process; whenever
/// there is an identifier on record it ends by erasing the record.
pub proof fn lemma_reaping_shape(config: ConfigView, found: Option<Seq<char>>)
    ensures
        ({
            let steps = reaping_of(config, found);
            let clear = ReapStepView::Clear(LockOpView::Remove { path: config.pid_file_path() });
            &&& forall|i: int|
                0 <= i < steps.len() ==> (#[trigger] steps[i] matches ReapStepView::Signal(signal)
                    ==> i == 0 && signal.target > 0 && signal.kind == SignalKind::Terminate)
            &&& record_of(found) is Some ==> steps.len() > 0 && steps.last() == clear
            &&& record_of(found) is None ==> steps.len() == 0
        }),
{
}

/// A run that recorded `pid` and then crashed leaves the next startup a
/// record to reap: the reaper signals the process that `pid` stands for,
/// then erases the record. A second reaper run right after finds no record
/// and asks for nothing.
pub proof fn lemma_reap_after_crash(config: ConfigView, pid: u32, disk: Disk)
    ensures
        ({
            let path = config.pid_file_path();
            let clear = ReapStepView::Clear(LockOpView::Remove { path });
            let crashed = (LockOpView::Write { path, contents: record_text(pid) }).on(disk);
            let first = reaping_of(config, file_at(crashed, path));
            let reaped = after_reaping(first, crashed);
            let second = reaping_of(config, file_at(reaped, path));
            &&& first == match signal_target_of(pid) {
                Some(target) => seq![
                    ReapStepView::Signal(Signal { target, kind: SignalKind::Terminate }),
                    clear,
                ],
                None => seq![clear],
            }
            &&& file_at(reaped, path) is None
            &&& second.len() == 0
            &&& after_reaping(second, reaped) == reaped
        }),
{
    lemma_record_round_trip(pid);
    lemma_reaping_clears(config, (LockOpView::Write {
        path: config.pid_file_path(),
        contents: record_text(pid),
    }).on(disk));
}

/// After the reaper's steps the lock file is gone wherever it had an
/// identifier on record, and is as it was wherever it had none. No other
/// file is touched.
pub proof fn lemma_reaping_clears(config: ConfigView, disk: Disk)
    ensures
        ({
            let path = config.pid_file_path();
            let reaped = after_reaping(reaping_of(config, file_at(disk, path)), disk);
            &&& record_of(file_at(disk, path)) is Some ==> reaped == disk.remove(path)
            &&& record_of(file_at(disk, path)) is None ==> reaped == disk
        }),
{
    let path = config.pid_file_path();
    let steps = reaping_of(config, file_at(disk, path));
    reveal_with_fuel(after_reaping, 3);
    if steps.len() == 2 {
        assert(steps.drop_first().len() == 1);
        assert(steps.drop_first().drop_first().len() == 0);
    } else if steps.len() == 1 {
        assert(steps.drop_first().len() == 0);
    }
}

/// Without a record the reaper asks for nothing, and the disk stays as it
/// is: a missing, empty or corrupt lock file never stands in the way of a
/// startup.
pub proof fn lemma_reap_without_record(config: ConfigView, disk: Disk)
    requires
        record_of(file_at(disk, config.pid_file_path())) is None,
    ensures
        reaping_of(config, file_at(disk, config.pid_file_path())).len() == 0,
        after_reaping(reaping_of(config, file_at(disk, config.pid_file_path())), disk) == disk,
{
}

} // verus!
