//! Call-stack backtraces for freestanding programs: the rules by which a walk
//! of the stack is turned into a bounded list of addresses, verified.
//!
//! The stack unwinder is not part of this library. Whoever drives it hands
//! its answers over as plain integers, either one at a time, to
//! [`Backtrace::record`], or as the recorded reports of a whole walk, to
//! [`Backtrace::capture`] and [`Backtrace::capture_from_context`].

pub mod aarch64;
pub mod backtrace;
pub mod context;
pub mod frames;
pub mod laws;
pub mod riscv;
pub mod unwind;

pub use backtrace::Backtrace;
pub use context::{Register, RegisterContext, RegisterWrite};
pub use frames::{CapacityError, Frames};
pub use unwind::{frame_address, has_proc_info, step_succeeded, Step, UNW_ESUCCESS};
