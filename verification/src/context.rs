//! Register snapshots from which a walk can start, and the unwinder's
//! register slots onto which a snapshot is projected.

use vstd::prelude::*;

verus! {

/// A register slot of the unwinder's cursor.
#[derive(Clone, Copy, Debug, PartialEq, Eq, Structural)]
pub enum Register {
    /// The slot of the instruction pointer.
    InstructionPointer,
    /// The slot of the stack pointer.
    StackPointer,
    /// The slot of the general-purpose register with this number.
    General(u8),
}

/// One register of a snapshot, to be written into the unwinder's cursor.
#[derive(Clone, Copy, Debug, PartialEq, Eq, Structural)]
pub struct RegisterWrite {
    /// The slot to write.
    pub register: Register,
    /// The value to write into it.
    pub value: usize,
}

/// The register state of an interrupted execution, as far as a walk of its
/// stack needs it.
pub trait RegisterContext {
    /// The program counter that the snapshot holds.
    spec fn program_counter(&self) -> usize;

    /// Returns the program counter that the snapshot holds: the address of
    /// the instruction at which the execution was interrupted.
    fn ip(&self) -> (address: usize)
        ensures
            address == self.program_counter(),
    ;
}

} // verus!
