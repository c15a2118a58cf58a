//! Helpers for driving an asynchronous unit under test through a scripted
//! exchange: a single-slot rendezvous channel whose writes complete only when
//! read, a deadline combinator, and the decisions of a bounded harness run.
//! Each is a state machine over plain values; the tasks, locks and timers
//! that run them stay with the caller.

pub mod context;
pub mod slot;
pub mod timeout;

pub use context::{harness_step, recv_result, try_recv_result, HarnessStep, PeerClosed, HARNESS_TIMEOUT_SECS};
pub use slot::{ReadPoll, SinkState, Slot};
pub use timeout::{resolve_timeout, TimeoutPoll};
