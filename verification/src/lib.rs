//! A low-level green-threading core.
//!
//! The crate plans context switches and leaves their execution to the
//! embedding program: every operation that touches machine state is expressed
//! as a value (words to store, a transfer of control to perform) computed from
//! plain addresses, and what comes back from the machine is handed in again as
//! plain values. All address arithmetic, frame layouts and protocol steps are
//! verified.
pub mod arch;
pub mod stack;
pub mod stack_pointer;
pub mod context;
pub mod fat_args;
pub mod session;
pub mod pattern;

pub use context::Context;
pub use session::context::{ThreadLocals, NATIVE_THREAD_LOCALS};
pub use stack::Stack;
