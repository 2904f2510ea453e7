//! Typed sessions on top of the raw switch.
//!
//! A session context says, in its type, what the thread it suspends expects
//! to receive when it is resumed. A thread that is switched to rebuilds its
//! typed arguments from what the switch delivered: the stack pointer of the
//! thread that switched, and a payload.
pub mod context;
pub mod cycle;
pub mod safer_rebuild;
