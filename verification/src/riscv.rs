//! The register snapshot of the RISC-V architecture, for both of its
//! register widths.

use vstd::prelude::*;
use crate::context::{Register, RegisterContext, RegisterWrite};

verus! {

/// The register state of an interrupted RISC-V execution.
#[derive(Clone, Copy, Debug)]
pub struct Context {
    /// The general-purpose registers `x1` to `x31`, in this order: the
    /// return address, the stack pointer and the rest. `x0` is always zero
    /// and has no place here.
    pub regs: [usize; 31],
    /// The program counter.
    pub pc: usize,
}

impl RegisterContext for Context {
    open spec fn program_counter(&self) -> usize {
        self.pc
    }

    fn ip(&self) -> (address: usize) {
        self.pc
    }
}

impl Context {
    /// The writes that project the snapshot onto a cursor: `x1` to `x31`
    /// into the general-purpose slots of the same numbers, then the program
    /// counter into the instruction pointer's slot.
    pub open spec fn writes(&self) -> Seq<RegisterWrite> {
        Seq::new(
            32,
            |i: int|
                if i < 31 {
                    RegisterWrite {
                        register: Register::General((i + 1) as u8),
                        value: self.regs@[i],
                    }
                } else {
                    RegisterWrite { register: Register::InstructionPointer, value: self.pc }
                },
        )
    }

    /// Lists every register that the snapshot carries with the slot of the
    /// unwinder's cursor into which it is to be written.
    pub fn apply(&self) -> (writes: [RegisterWrite; 32])
        ensures
            writes@ == self.writes(),
    {
        let mut writes = [RegisterWrite { register: Register::InstructionPointer, value: self.pc };
            32];
        let mut i: usize = 0;
        while i < 31
            invariant
                i <= 31,
                writes@[31] == (RegisterWrite {
                    register: Register::InstructionPointer,
                    value: self.pc,
                }),
                forall|j: int|
                    0 <= j < i ==> #[trigger] writes@[j] == (RegisterWrite {
                        register: Register::General((j + 1) as u8),
                        value: self.regs@[j],
                    }),
            decreases 31 - i,
        {
            writes[i] = RegisterWrite {
                register: Register::General((i + 1) as u8),
                value: self.regs[i],
            };
            i = i + 1;
        }
        writes
    }
}

} // verus!
