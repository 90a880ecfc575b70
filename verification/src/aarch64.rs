//! The register snapshot of the AArch64 architecture.

use vstd::prelude::*;
use crate::context::{Register, RegisterContext, RegisterWrite};

verus! {

/// The register state of an interrupted AArch64 execution.
#[derive(Clone, Copy, Debug)]
pub struct Context {
    /// The general-purpose registers `x0` to `x30`, in this order.
    pub regs: [usize; 31],
    /// The stack pointer.
    pub sp: usize,
    /// The program counter.
    pub pc: usize,
}

impl RegisterContext for Context {
    open spec fn program_counter(&self) -> usize {
        self.pc
    }

    fn ip(&self) -> (address: usize) {
        self.pc
    }
}

impl Context {
    /// The writes that project the snapshot onto a cursor: `x0` to `x30`
    /// into the general-purpose slots of the same numbers, then the stack
    /// pointer, then the program counter into the instruction pointer's slot.
    pub open spec fn writes(&self) -> Seq<RegisterWrite> {
        Seq::new(
            33,
            |i: int|
                if i < 31 {
                    RegisterWrite { register: Register::General(i as u8), value: self.regs@[i] }
                } else if i == 31 {
                    RegisterWrite { register: Register::StackPointer, value: self.sp }
                } else {
                    RegisterWrite { register: Register::InstructionPointer, value: self.pc }
                },
        )
    }

    /// Lists every register that the snapshot carries with the slot of the
    /// unwinder's cursor into which it is to be written.
    pub fn apply(&self) -> (writes: [RegisterWrite; 33])
        ensures
            writes@ == self.writes(),
    {
        let mut writes = [RegisterWrite { register: Register::InstructionPointer, value: self.pc };
            33];
        let mut i: usize = 0;
        while i < 31
            invariant
                i <= 31,
                writes@[32] == (RegisterWrite {
                    register: Register::InstructionPointer,
                    value: self.pc,
                }),
                forall|j: int|
                    0 <= j < i ==> #[trigger] writes@[j] == (RegisterWrite {
                        register: Register::General(j as u8),
                        value: self.regs@[j],
                    }),
            decreases 31 - i,
        {
            writes[i] = RegisterWrite { register: Register::General(i as u8), value: self.regs[i] };
            i = i + 1;
        }
        writes[31] = RegisterWrite { register: Register::StackPointer, value: self.sp };
        writes
    }
}

} // verus!
