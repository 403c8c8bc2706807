use vstd::prelude::*;

verus! {

/// The lifecycle states of one task.
///
/// Exactly one of these holds at any instant.  `Completed` and `Canceled`
/// are terminal: once reached, no operation leaves them.
#[derive(Debug)]
pub enum State<T> {
    /// Eligible to run: the task has been handed to the executor and a poll
    /// step has not yet been picked up.
    Scheduled,
    /// A poll step is currently in progress.
    Running,
    /// The last poll step suspended; the task awaits a wake.
    Pending,
    /// The computation finished.  The slot holds the output until it is
    /// extracted once; afterwards the slot is empty but the state remains
    /// `Completed`.
    Completed(Option<T>),
    /// The owner requested termination; no further poll step will occur.
    Canceled,
}

/// The outcome of one poll step of the computation.
#[derive(Debug)]
pub enum Step<T> {
    /// The computation finished and produced its output.
    Ready(T),
    /// The computation suspended; a wake will report when progress may be
    /// possible again.
    Suspended,
}

/// What the owner observes when reading the task's outcome.
#[derive(Debug, PartialEq, Eq)]
pub enum Read<T> {
    /// The task is terminal: the output, or `None` if the task was canceled
    /// or the output was already extracted.
    Ready(Option<T>),
    /// The task is not yet terminal; the reader must try again later.
    NotReady,
}

impl<T> State<T> {
    /// A terminal state never changes again.
    pub open spec fn is_terminal(self) -> bool {
        self is Completed || self is Canceled
    }

    /// The state after a run begins: a terminal task is left alone,
    /// any other task is marked `Running`.
    pub open spec fn begin_run_next(self) -> State<T> {
        if self.is_terminal() {
            self
        } else {
            State::Running
        }
    }

    /// Whether a run that begins in this state goes on to poll the
    /// computation: exactly when the state is not terminal.
    pub open spec fn begin_run_polls(self) -> bool {
        !self.is_terminal()
    }

    /// The finishing write of a run, as a compare-and-set against the state
    /// observed when the poll step ended.  A terminal state sticks (a cancel
    /// that arrived mid-poll is honored, the output of an earlier completion
    /// is never replaced).  `Scheduled` — a wake arrived mid-poll — is kept
    /// when the poll suspended, so the wake is not lost.  Otherwise the poll
    /// outcome is recorded: `Completed` with the output, or `Pending`.
    pub open spec fn finish_run_next(self, step: Step<T>) -> State<T> {
        if self.is_terminal() {
            self
        } else {
            match step {
                Step::Ready(out) => State::Completed(Some(out)),
                Step::Suspended => {
                    if self is Scheduled {
                        State::Scheduled
                    } else {
                        State::Pending
                    }
                },
            }
        }
    }

    /// Whether the finishing write hands the task back to the executor:
    /// exactly when a mid-poll wake left the state `Scheduled` and the poll
    /// suspended.  The wake itself did not invoke the scheduling callback
    /// (see `wake_schedules`), so this deferred hand-off is the single
    /// re-schedule for that wake.
    pub open spec fn finish_run_schedules(self, step: Step<T>) -> bool {
        &&& !self.is_terminal()
        &&& self is Scheduled
        &&& step is Suspended
    }

    /// A whole run with poll outcome `step` and no interleaved operation:
    /// the composition of `begin_run_next` and `finish_run_next`.
    pub open spec fn run_next(self, step: Step<T>) -> State<T> {
        self.begin_run_next().finish_run_next(step)
    }

    /// The state after a wake: `Pending` and `Running` both become
    /// `Scheduled`; every other state is left alone.
    pub open spec fn wake_next(self) -> State<T> {
        match self {
            State::Pending => State::Scheduled,
            State::Running => State::Scheduled,
            _ => self,
        }
    }

    /// Whether a wake invokes the scheduling callback: only on the
    /// `Pending` to `Scheduled` transition.  A wake during `Running` only
    /// marks the state; the in-flight run performs the hand-off when it
    /// finishes, so the task is never enqueued twice.
    pub open spec fn wake_schedules(self) -> bool {
        self is Pending
    }

    /// The state after a cancellation request: forced to `Canceled` unless
    /// the task already completed, in which case the outcome stands.
    pub open spec fn cancel_next(self) -> State<T> {
        if self is Completed {
            self
        } else {
            State::Canceled
        }
    }

    /// The state after the owner reads the outcome: extraction empties a
    /// `Completed` slot but keeps the state `Completed`; every other state
    /// is left alone.
    pub open spec fn read_next(self) -> State<T> {
        match self {
            State::Completed(_) => State::Completed(None),
            _ => self,
        }
    }

    /// What the owner's read returns: the slot of a `Completed` task,
    /// absence for a `Canceled` one, and `NotReady` otherwise.
    pub open spec fn read_out(self) -> Read<T> {
        match self {
            State::Completed(out) => Read::Ready(out),
            State::Canceled => Read::Ready(None),
            _ => Read::NotReady,
        }
    }
}

} // verus!
