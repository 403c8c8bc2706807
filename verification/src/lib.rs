//! A deferred-execution task primitive.
//!
//! A task wraps a suspendable computation together with a caller-supplied
//! scheduling callback.  This crate verifies the heart of that design: the
//! lifecycle state machine that governs one task under interleaved wake,
//! poll and cancel requests.  The computation itself and the thread-safe
//! plumbing (reference counting, locks, the real callback) are external
//! collaborators: each poll step's outcome enters the state machine as a
//! [`Step`] event, and each operation reports whether the scheduling
//! callback must now be invoked.

mod state;
mod spawn;
mod laws;

pub use state::{State, Step, Read};
pub use spawn::{spawn, Runnable, Task};
pub use laws::{
    lemma_terminal_monotonic,
    lemma_no_lost_wakeup,
    lemma_cancel_after_complete,
    lemma_read_idempotent,
    lemma_schedule_only_into_scheduled,
    lemma_only_begin_enters_running,
};
