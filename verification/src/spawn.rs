use vstd::prelude::*;
use crate::state::{State, Step, Read};

verus! {

/// The lifecycle-owning record for one task.
///
/// In the running system this record is shared — reference-counted among
/// the owner's handle, the executor and any reactor-held wake capability,
/// with the state behind a lock — and the computation and the scheduling
/// callback live beside it.  Here it carries the verified part: the state
/// and every transition taken on it.  Each poll step's outcome arrives as
/// a [`Step`] value, and each operation returns whether the scheduling
/// callback must now be invoked, so the surrounding glue makes no decision
/// of its own.
pub struct Runnable<T> {
    state: State<T>,
}

impl<T> View for Runnable<T> {
    type V = State<T>;

    closed spec fn view(&self) -> State<T> {
        self.state
    }
}

impl<T> Runnable<T> {
    /// A fresh task starts out `Scheduled`.  The caller that constructs it
    /// must hand it to the executor once, immediately: the construction-time
    /// invocation of the scheduling callback.
    pub fn new() -> (r: Runnable<T>)
        ensures
            r@ == State::<T>::Scheduled,
    {
        Runnable { state: State::Scheduled }
    }

    /// The opening half of a run: on a terminal task, leave the state alone
    /// and report that no poll step may take place; otherwise mark the task
    /// `Running` and report that the computation is to be polled once.
    pub fn begin_run(&mut self) -> (proceed: bool)
        ensures
            final(self)@ == old(self)@.begin_run_next(),
            proceed == old(self)@.begin_run_polls(),
    {
        match &self.state {
            State::Completed(_) => false,
            State::Canceled => false,
            _ => {
                self.state = State::Running;
                true
            },
        }
    }

    /// The closing half of a run, given the outcome of the poll step: a
    /// compare-and-set against the state as observed now, not a blind
    /// write.  A wake that arrived mid-poll left the state `Scheduled`; a
    /// suspension then keeps it `Scheduled` and returns true, asking the
    /// caller to invoke the scheduling callback once — the hand-off the
    /// wake itself deferred.  A cancel that arrived mid-poll sticks.  In
    /// every other case the outcome is recorded and no hand-off is due.
    pub fn finish_run(&mut self, step: Step<T>) -> (schedule: bool)
        ensures
            final(self)@ == old(self)@.finish_run_next(step),
            schedule == old(self)@.finish_run_schedules(step),
    {
        match step {
            Step::Ready(out) => {
                match &self.state {
                    State::Completed(_) => false,
                    State::Canceled => false,
                    _ => {
                        self.state = State::Completed(Some(out));
                        false
                    },
                }
            },
            Step::Suspended => {
                match &self.state {
                    State::Completed(_) => false,
                    State::Canceled => false,
                    State::Scheduled => true,
                    _ => {
                        self.state = State::Pending;
                        false
                    },
                }
            },
        }
    }

    /// One whole run with no interleaved wake or cancel: begin, poll the
    /// computation once with outcome `step`, and record the result.  On a
    /// terminal task this is a no-op and `step` is discarded unused.  The
    /// result — whether the task must be handed back to the executor — is
    /// false here, since only a mid-poll wake makes the finishing write
    /// request a hand-off.
    pub fn run(&mut self, step: Step<T>) -> (rescheduled: bool)
        ensures
            final(self)@ == old(self)@.run_next(step),
            !rescheduled,
    {
        let proceed = self.begin_run();
        if proceed {
            self.finish_run(step)
        } else {
            false
        }
    }

    /// A wake, invoked by whatever holds the wake capability: a `Pending`
    /// task becomes `Scheduled` and the result asks the caller to invoke
    /// the scheduling callback; a `Running` task becomes `Scheduled` with
    /// no callback — the in-flight run performs the hand-off when it
    /// finishes.  In any other state a wake is a no-op, so invoking the
    /// capability is safe at any time, any number of times.
    pub fn wake(&mut self) -> (schedule: bool)
        ensures
            final(self)@ == old(self)@.wake_next(),
            schedule == old(self)@.wake_schedules(),
    {
        match &self.state {
            State::Pending => {
                self.state = State::Scheduled;
                true
            },
            State::Running => {
                self.state = State::Scheduled;
                false
            },
            _ => false,
        }
    }

    /// A cancellation request: the task is forced to `Canceled` unless it
    /// already completed, in which case the produced output stands.
    pub fn mark_canceled(&mut self)
        ensures
            final(self)@ == old(self)@.cancel_next(),
    {
        match &self.state {
            State::Completed(_) => (),
            _ => {
                self.state = State::Canceled;
            },
        }
    }

    /// Read the task's outcome: on a `Completed` task the slot is taken —
    /// the output on the first read, absence on every later one, the state
    /// staying `Completed`; on a `Canceled` task absence; on any other
    /// state `NotReady`, and nothing changes.  Never blocks.
    pub fn poll_output(&mut self) -> (r: Read<T>)
        ensures
            final(self)@ == old(self)@.read_next(),
            r == old(self)@.read_out(),
    {
        match &mut self.state {
            State::Completed(out) => Read::Ready(out.take()),
            State::Canceled => Read::Ready(None),
            _ => Read::NotReady,
        }
    }

    /// Whether the task is currently `Scheduled`.
    pub fn is_scheduled(&self) -> (r: bool)
        ensures
            r == (self@ is Scheduled),
    {
        matches!(&self.state, State::Scheduled)
    }

    /// Whether a poll step is currently in progress.
    pub fn is_running(&self) -> (r: bool)
        ensures
            r == (self@ is Running),
    {
        matches!(&self.state, State::Running)
    }

    /// Whether the task awaits a wake.
    pub fn is_pending(&self) -> (r: bool)
        ensures
            r == (self@ is Pending),
    {
        matches!(&self.state, State::Pending)
    }

    /// Whether the computation finished.
    pub fn is_completed(&self) -> (r: bool)
        ensures
            r == (self@ is Completed),
    {
        matches!(&self.state, State::Completed(_))
    }

    /// Whether the task was canceled.
    pub fn is_canceled(&self) -> (r: bool)
        ensures
            r == (self@ is Canceled),
    {
        matches!(&self.state, State::Canceled)
    }
}

/// The owner-facing handle to a task.
///
/// In the running system the handle shares the record with the executor
/// and the reactor; here it owns the record, and the operations that
/// consume the handle return the record, still alive, to the caller — who
/// stands for those remaining holders.
pub struct Task<T> {
    runnable: Runnable<T>,
}

/// Construct a task.  It starts out `Scheduled`, and the surrounding glue
/// must invoke the scheduling callback exactly once before the handle is
/// used — the construction-time hand-off to the executor.
pub fn spawn<T>() -> (t: Task<T>)
    ensures
        t@ == State::<T>::Scheduled,
{
    Task { runnable: Runnable::new() }
}

impl<T> View for Task<T> {
    type V = State<T>;

    closed spec fn view(&self) -> State<T> {
        self.runnable@
    }
}

impl<T> Task<T> {
    /// Drive the task one run while the handle is still held: the
    /// executor's operation, reaching the shared record.
    pub fn run(&mut self, step: Step<T>) -> (rescheduled: bool)
        ensures
            final(self)@ == old(self)@.run_next(step),
            !rescheduled,
    {
        self.runnable.run(step)
    }

    /// Invoke the task's wake capability while the handle is still held:
    /// the reactor's operation, reaching the shared record.
    pub fn wake(&mut self) -> (schedule: bool)
        ensures
            final(self)@ == old(self)@.wake_next(),
            schedule == old(self)@.wake_schedules(),
    {
        self.runnable.wake()
    }

    /// Read the task's outcome through the handle; the handle is itself
    /// awaitable, and this is its poll.
    pub fn poll(&mut self) -> (r: Read<T>)
        ensures
            final(self)@ == old(self)@.read_next(),
            r == old(self)@.read_out(),
    {
        self.runnable.poll_output()
    }

    /// Detach: give up the handle without touching the task.  The record
    /// comes back unchanged and keeps running under whoever now drives it;
    /// dropping a detached handle cancels nothing.
    pub fn detach(self) -> (r: Runnable<T>)
        ensures
            r@ == self@,
    {
        self.runnable
    }

    /// Cancel: force the task to `Canceled` unless it already completed,
    /// then read the outcome — the output, if completion won the race, or
    /// absence.  The state is then terminal, so the read never has to
    /// wait.  The record comes back still alive for the executor.
    pub fn cancel(self) -> (r: (Option<T>, Runnable<T>))
        ensures
            r.1@ == self@.cancel_next().read_next(),
            self@.cancel_next().read_out() == Read::Ready(r.0),
            self@ matches State::Completed(Some(v)) ==> r.0 == Some(v),
            self@ !is Completed ==> r.0 is None && r.1@ is Canceled,
    {
        let mut runnable = self.runnable;
        runnable.mark_canceled();
        let out = match runnable.poll_output() {
            Read::Ready(o) => o,
            Read::NotReady => None,
        };
        (out, runnable)
    }

    /// The teardown of a handle dropped without being detached: the task is
    /// canceled unless it already completed, and no outcome is observed.
    pub fn teardown(self) -> (r: Runnable<T>)
        ensures
            r@ == self@.cancel_next(),
    {
        let mut runnable = self.runnable;
        runnable.mark_canceled();
        runnable
    }
}

} // verus!
