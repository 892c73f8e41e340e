//! Verified core of a countdown-timer application.
//!
//! The heart of the crate is the [`app::Pomodoro`] state machine: a remaining
//! duration in seconds together with a run state, mutated only through the
//! four documented operations. Around it stand the decision functions of the
//! three concurrent activities (tick loop, input loop, render loop) and a
//! model of their coordinated shutdown. All I/O — the terminal, the key
//! events, the async scheduling — lives outside this crate; the functions
//! here take plain values and return plain values, with contracts proved by
//! Verus.

pub mod app;
pub mod input;
pub mod timer;
pub mod lifecycle;
pub mod ui;

pub use app::Pomodoro;
pub use app::TimerState;
