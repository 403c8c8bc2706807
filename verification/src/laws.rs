use vstd::prelude::*;
use crate::state::{State, Step, Read};

verus! {

/// Terminal monotonicity: once a task is `Completed` or `Canceled`, no
/// operation moves it to another lifecycle state.  A begin, a finishing
/// write, a whole run, a wake or a cancellation request leaves a terminal
/// state exactly as it was, polls nothing and requests no hand-off to the
/// executor.  A read may empty a `Completed` slot, but the state stays
/// `Completed`, and a `Canceled` state is untouched.
pub proof fn lemma_terminal_monotonic<T>(s: State<T>, step: Step<T>)
    requires
        s.is_terminal(),
    ensures
        s.begin_run_next() == s,
        !s.begin_run_polls(),
        s.finish_run_next(step) == s,
        !s.finish_run_schedules(step),
        s.run_next(step) == s,
        s.wake_next() == s,
        !s.wake_schedules(),
        s.cancel_next() == s,
        s.read_next().is_terminal(),
        s is Completed ==> s.read_next() is Completed,
        s is Canceled ==> s.read_next() == s,
{
}

/// No lost wakeup: a wake that arrives while a poll step is in flight
/// (state `Running`) marks the task `Scheduled` without invoking the
/// scheduling callback; when that poll step then finishes with a
/// suspension, the finishing write keeps the task `Scheduled` and requests
/// the hand-off to the executor — so across the two operations the task is
/// re-scheduled exactly once, and the next run polls the computation
/// again.
pub proof fn lemma_no_lost_wakeup<T>(s: State<T>)
    requires
        s is Running,
    ensures
        s.wake_next() is Scheduled,
        !s.wake_schedules(),
        s.wake_next().finish_run_next(Step::Suspended) is Scheduled,
        s.wake_next().finish_run_schedules(Step::<T>::Suspended),
        s.wake_next().finish_run_next(Step::Suspended).begin_run_polls(),
{
}

/// Cancel after completion is a no-op: a cancellation request on a
/// `Completed` task neither discards nor replaces the produced output —
/// the state is unchanged, and a read afterwards observes exactly what a
/// read before would have.
pub proof fn lemma_cancel_after_complete<T>(s: State<T>)
    requires
        s is Completed,
    ensures
        s.cancel_next() == s,
        s.cancel_next().read_out() == s.read_out(),
{
}

/// Idempotent result read: reading a `Completed` task returns the held
/// output once; the state stays `Completed` with an empty slot, and every
/// later read returns absence from that same state.  A read of a completed
/// task always has an answer — it never has to wait.
pub proof fn lemma_read_idempotent<T>(s: State<T>)
    requires
        s is Completed,
    ensures
        s matches State::Completed(Some(v)) ==> s.read_out() == Read::Ready(Some(v)),
        s.read_next() == State::Completed(None::<T>),
        s.read_next().read_out() == Read::Ready(None::<T>),
        s.read_next().read_next() == s.read_next(),
        s.read_out() !is NotReady,
{
}

/// Schedule discipline: the scheduling callback is requested only on a
/// transition into `Scheduled`, at most once per operation — a wake
/// requests it exactly on `Pending`, and a finishing write exactly when a
/// mid-poll wake is being honored.  Together with the single invocation at
/// construction, the callback fires at most once per arrival in
/// `Scheduled`.
pub proof fn lemma_schedule_only_into_scheduled<T>(s: State<T>, step: Step<T>)
    ensures
        s.wake_schedules() ==> s.wake_next() is Scheduled && !(s is Scheduled),
        s.wake_schedules() <==> s is Pending,
        s.finish_run_schedules(step) ==> s.finish_run_next(step) is Scheduled,
        s.finish_run_schedules(step) <==> !s.is_terminal() && s is Scheduled && step is Suspended,
{
}

/// Only a begin enters `Running`: a poll step is authorized exactly by a
/// begin that found the task live, and no wake, finishing write,
/// cancellation request or read ever moves a task into `Running`.  Every
/// poll step is therefore bracketed by its own begin; that at most one
/// such step executes at any instant is the duty of the lock that
/// serializes access to the computation itself.
pub proof fn lemma_only_begin_enters_running<T>(s: State<T>, step: Step<T>)
    ensures
        s.begin_run_polls() ==> s.begin_run_next() is Running,
        s.wake_next() !is Running,
        s.finish_run_next(step) !is Running,
        s.cancel_next() !is Running,
        s.read_next() is Running ==> s is Running,
{
}

} // verus!
