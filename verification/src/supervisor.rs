//! The process supervisor and the shutdown coordinator. The supervisor keeps
//! the handle of the one child it manages in a slot that is either empty or
//! full; shutdown takes the handle out, so that a second shutdown finds the
//! slot empty and terminates nothing.
//!
//! The handle's type is the caller's: whatever the process launcher returned.

use vstd::prelude::*;
use crate::config::{Config, ConfigView};
use crate::lock_file::{
    file_at, lemma_record_round_trip, record_of, record_text, Disk, LockFile, LockOp, LockOpView,
};
use crate::reaper::{after_reaping, lemma_reaping_clears, reap_steps_view, reaping_of, ReapStep};

verus! {

/// The owner of the managed child handle.
#[derive(Debug)]
pub struct Supervisor<H> {
    config: Config,
    child: Option<H>,
}

/// A `Supervisor` as plain values.
pub ghost struct SupervisorView<H> {
    /// The configuration that the supervisor works under.
    pub config: ConfigView,
    /// The handle in the slot, if any.
    pub child: Option<H>,
}

/// One thing that shutdown asks for.
#[derive(Debug)]
pub enum ShutdownStep<H> {
    /// Terminate the child. A failure to terminate it is to be logged at
    /// most: the steps that follow are due either way.
    Terminate(H),
    /// Make the change that erases the lock record.
    Clear(LockOp),
}

/// A `ShutdownStep` as plain values.
pub ghost enum ShutdownStepView<H> {
    Terminate(H),
    Clear(LockOpView),
}

/// What the application's event loop reports.
#[derive(Clone, Copy, Debug, PartialEq, Eq, Structural)]
pub enum RunSignal {
    /// The application was asked to exit: by the user, by the last window
    /// closing, or from outside.
    ExitRequested,
    /// The event loop is about to end.
    Exit,
    /// Anything else.
    Other,
}

impl<H> View for Supervisor<H> {
    type V = SupervisorView<H>;

    closed spec fn view(&self) -> SupervisorView<H> {
        SupervisorView { config: self.config@, child: self.child }
    }
}

impl<H> View for ShutdownStep<H> {
    type V = ShutdownStepView<H>;

    open spec fn view(&self) -> ShutdownStepView<H> {
        match self {
            ShutdownStep::Terminate(child) => ShutdownStepView::Terminate(*child),
            ShutdownStep::Clear(op) => ShutdownStepView::Clear(op@),
        }
    }
}

impl<H> ShutdownStepView<H> {
    /// The disk once the step has been taken on `disk`. Terminating the
    /// child changes no file.
    pub open spec fn on(self, disk: Disk) -> Disk {
        match self {
            ShutdownStepView::Terminate(_) => disk,
            ShutdownStepView::Clear(op) => op.on(disk),
        }
    }
}

/// Steps as plain values, in their order.
pub open spec fn shutdown_steps_view<H>(steps: Seq<ShutdownStep<H>>) -> Seq<ShutdownStepView<H>> {
    Seq::new(steps.len(), |i: int| steps[i]@)
}

/// The disk once `steps` have been taken on `disk`, one after the other.
pub open spec fn after_steps<H>(steps: Seq<ShutdownStepView<H>>, disk: Disk) -> Disk
    decreases steps.len(),
{
    if steps.len() == 0 {
        disk
    } else {
        after_steps(steps.drop_first(), steps[0].on(disk))
    }
}

impl<H> SupervisorView<H> {
    /// The change that records `pid` once a child has been adopted.
    pub open spec fn record(self, pid: u32) -> LockOpView {
        LockOpView::Write { path: self.config.pid_file_path(), contents: record_text(pid) }
    }

    /// The supervisor after it has been offered `child`: an empty slot takes
    /// it, a full one keeps what it has.
    pub open spec fn after_adopt(self, child: H) -> SupervisorView<H> {
        match self.child {
            None => SupervisorView { config: self.config, child: Some(child) },
            Some(_) => self,
        }
    }

    /// The step that erases the lock record.
    pub open spec fn clear(self) -> ShutdownStepView<H> {
        ShutdownStepView::Clear(LockOpView::Remove { path: self.config.pid_file_path() })
    }

    /// What shutdown asks for, in order: first the termination of the child
    /// in the slot, if there is one, then the erasure of the lock record,
    /// which is due in any case.
    pub open spec fn shutdown(self) -> Seq<ShutdownStepView<H>> {
        match self.child {
            Some(child) => seq![ShutdownStepView::Terminate(child), self.clear()],
            None => seq![self.clear()],
        }
    }

    /// The supervisor after shutdown: the slot is empty.
    pub open spec fn after_shutdown(self) -> SupervisorView<H> {
        SupervisorView { config: self.config, child: None }
    }
}

impl RunSignal {
    /// Whether the signal calls for shutdown.
    pub open spec fn is_exit_trigger(self) -> bool {
        self != RunSignal::Other
    }

    /// Whether the signal calls for shutdown.
    pub fn triggers_exit(&self) -> (yes: bool)
        ensures
            yes == self.is_exit_trigger(),
    {
        match self {
            RunSignal::ExitRequested => true,
            RunSignal::Exit => true,
            RunSignal::Other => false,
        }
    }
}

impl<H> Supervisor<H> {
    /// A supervisor with an empty slot.
    pub fn new(config: Config) -> (supervisor: Self)
        ensures
            supervisor@ == (SupervisorView::<H> { config: config@, child: None }),
    {
        Supervisor { config, child: None }
    }

    /// The configuration that the supervisor works under.
    pub fn config(&self) -> (config: &Config)
        ensures
            config@ == self@.config,
    {
        &self.config
    }

    /// Whether a child is held.
    pub fn is_supervising(&self) -> (held: bool)
        ensures
            held == self@.child is Some,
    {
        self.child.is_some()
    }

    /// Runs the stale-instance reaper on what was found at the lock file's
    /// path. The steps are to be taken in the order in which they come. The
    /// slot is not touched.
    pub fn reap(&self, found: &LockFile) -> (steps: Vec<ReapStep>)
        ensures
            reap_steps_view(steps@) == reaping_of(self@.config, found@),
    {
        self.config.cleanup_existing_server(found)
    }

    /// Takes charge of a child that has just been spawned under the
    /// identifier `pid`. With the slot empty the handle goes into it, and the
    /// result is the change that records `pid`, which is to be made at once:
    /// a failure to make it is fatal. With the slot full nothing changes and
    /// the handle comes back: there is never more than one managed child.
    pub fn adopt(&mut self, child: H, pid: u32) -> (record: Result<LockOp, H>)
        ensures
            final(self)@ == old(self)@.after_adopt(child),
            match old(self)@.child {
                None => record matches Ok(op) && op@ == old(self)@.record(pid),
                Some(_) => record == Err::<LockOp, H>(child),
            },
    {
        if self.child.is_some() {
            Err(child)
        } else {
            self.child = Some(child);
            Ok(self.config.write_pid_file(pid))
        }
    }

    /// Shuts down: empties the slot and says what is to be done, in order:
    /// to terminate the child that was in the slot, if there was one, then
    /// to erase the lock record. The erasure is asked for on every call, also
    /// when the slot was empty already.
    pub fn shutdown(&mut self) -> (steps: Vec<ShutdownStep<H>>)
        ensures
            shutdown_steps_view(steps@) == old(self)@.shutdown(),
            final(self)@ == old(self)@.after_shutdown(),
    {
        let mut steps: Vec<ShutdownStep<H>> = Vec::new();
        if let Some(child) = self.child.take() {
            steps.push(ShutdownStep::Terminate(child));
        }
        steps.push(ShutdownStep::Clear(self.config.cleanup_pid_file()));
        assert(shutdown_steps_view(steps@) =~= old(self)@.shutdown());
        steps
    }

    /// Reacts to a report of the event loop: an exit trigger shuts down,
    /// anything else asks for nothing and leaves the supervisor as it is.
    pub fn on_run_signal(&mut self, signal: RunSignal) -> (steps: Vec<ShutdownStep<H>>)
        ensures
            signal.is_exit_trigger() ==> final(self)@ == old(self)@.after_shutdown()
                && shutdown_steps_view(steps@) == old(self)@.shutdown(),
            !signal.is_exit_trigger() ==> final(self)@ == old(self)@ && steps@.len() == 0,
    {
        if signal.triggers_exit() {
            self.shutdown()
        } else {
            Vec::new()
        }
    }
}

/// Shutdown ends by erasing the lock record, and before that terminates the
/// child that the slot held, if it held one, and nothing else.
pub proof fn lemma_shutdown_shape<H>(supervisor: SupervisorView<H>)
    ensures
        supervisor.shutdown().last() == supervisor.clear(),
        supervisor.child matches Some(child) ==> supervisor.shutdown() == seq![
            ShutdownStepView::Terminate(child),
            supervisor.clear(),
        ],
        supervisor.child is None ==> supervisor.shutdown() == seq![supervisor.clear()],
{
}

/// After the steps of a shutdown there is no lock file, and every other
/// file is as it was.
pub proof fn lemma_shutdown_clears<H>(supervisor: SupervisorView<H>, disk: Disk)
    ensures
        after_steps(supervisor.shutdown(), disk) == disk.remove(supervisor.config.pid_file_path()),
{
    let steps = supervisor.shutdown();
    reveal_with_fuel(after_steps, 3);
    if steps.len() == 2 {
        assert(steps.drop_first().len() == 1);
        assert(steps.drop_first().drop_first().len() == 0);
    } else {
        assert(steps.drop_first().len() == 0);
    }
}

/// Shutdown invoked twice in a row: the second invocation finds the slot
/// empty and terminates nothing, but asks for the erasure of the lock record
/// again, which leaves the disk as the first erasure left it: without a lock
/// file.
pub proof fn lemma_second_shutdown_is_harmless<H>(supervisor: SupervisorView<H>, disk: Disk)
    ensures
        ({
            let second = supervisor.after_shutdown().shutdown();
            let once = after_steps(supervisor.shutdown(), disk);
            &&& second == seq![supervisor.clear()]
            &&& supervisor.after_shutdown().after_shutdown() == supervisor.after_shutdown()
            &&& file_at(once, supervisor.config.pid_file_path()) is None
            &&& after_steps(second, once) == once
        }),
{
    lemma_shutdown_clears(supervisor, disk);
    let once = after_steps(supervisor.shutdown(), disk);
    lemma_shutdown_clears(supervisor.after_shutdown(), once);
    assert(once.remove(supervisor.config.pid_file_path()) =~= once);
}

/// A whole run leaves no lock file behind. Whatever the disk held at the
/// start: once the reaper has run and the new child has been recorded, the
/// record names the new child; once shutdown has cleared it, there is no lock
/// file; and no other file has been touched on the way.
pub proof fn lemma_run_leaves_no_lock_file<H>(supervisor: SupervisorView<H>, pid: u32, disk: Disk)
    ensures
        ({
            let path = supervisor.config.pid_file_path();
            let reaped = after_reaping(reaping_of(supervisor.config, file_at(disk, path)), disk);
            let locked = supervisor.record(pid).on(reaped);
            let done = after_steps(supervisor.shutdown(), locked);
            &&& record_of(file_at(locked, path)) == Some(pid)
            &&& file_at(done, path) is None
            &&& forall|other: Seq<char>|
                other != path ==> #[trigger] file_at(done, other) == file_at(disk, other)
        }),
{
    lemma_record_round_trip(pid);
    lemma_reaping_clears(supervisor.config, disk);
    let path = supervisor.config.pid_file_path();
    let reaped = after_reaping(reaping_of(supervisor.config, file_at(disk, path)), disk);
    lemma_shutdown_clears(supervisor, supervisor.record(pid).on(reaped));
}

/// A supervisor that holds a child keeps it when offered another: at most
/// one handle is live at a time.
pub proof fn lemma_one_child_at_a_time<H>(supervisor: SupervisorView<H>, first: H, second: H)
    requires
        supervisor.child is None,
    ensures
        supervisor.after_adopt(first).child == Some(first),
        supervisor.after_adopt(first).after_adopt(second) == supervisor.after_adopt(first),
{
}

} // verus!
