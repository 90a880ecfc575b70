//! What the stack unwinder reports, and how its reports are read.
//!
//! The unwinder itself is not part of this library. Its answers arrive here as
//! plain integers: the status of a step of its cursor, the instruction pointer
//! that the cursor then holds, the answer to the question whether the cursor
//! stands on a signal frame, and the status of a query for procedure
//! information.

use vstd::prelude::*;

verus! {

/// The status with which the unwinder reports that a query succeeded.
pub const UNW_ESUCCESS: i32 = 0;

/// Everything the unwinder reports for one step of its cursor.
#[derive(Clone, Copy, Debug, PartialEq, Eq, Structural)]
pub struct Step {
    /// The status of the step: positive when the cursor moved to a caller's
    /// frame, zero at the end of the stack, negative on an error.
    pub code: i32,
    /// The instruction pointer held by the cursor after the step.
    pub ip: usize,
    /// The answer to the signal-frame query after the step: positive when
    /// the cursor stands on a signal frame.
    pub signal_frame: i32,
}

/// The address recorded for a frame whose instruction pointer is `ip`.
///
/// In an ordinary frame `ip` is a return address, which points behind the
/// call instruction, and the byte before it is recorded. In a signal frame
/// `ip` is the interrupted instruction itself and is recorded as it is.
pub open spec fn recorded_address(ip: usize, signal_frame: i32) -> usize {
    if signal_frame > 0 {
        ip
    } else {
        (ip - 1) as usize
    }
}

/// Whether `ip` can be recorded: a return address is never zero.
pub open spec fn recordable(ip: usize, signal_frame: i32) -> bool {
    signal_frame > 0 || ip > 0
}

impl Step {
    /// Whether the step moved the cursor to a caller's frame.
    pub open spec fn completed(self) -> bool {
        self.code > 0
    }

    /// Whether the report is one that a walk can record: a completed step
    /// onto an ordinary frame reports a return address, which is not zero.
    pub open spec fn valid(self) -> bool {
        self.completed() ==> recordable(self.ip, self.signal_frame)
    }

    /// The address recorded for the frame that the step reached.
    pub open spec fn address(self) -> usize {
        recorded_address(self.ip, self.signal_frame)
    }
}

/// Whether every report in `steps` is valid.
pub open spec fn all_valid(steps: Seq<Step>) -> bool {
    forall|i: int| 0 <= i < steps.len() ==> (#[trigger] steps[i]).valid()
}

/// The number of steps that a walk over `steps` completes: those before the
/// first step that the unwinder did not complete, or all of them.
pub open spec fn completed_steps(steps: Seq<Step>) -> nat
    decreases steps.len(),
{
    if steps.len() == 0 || !steps.first().completed() {
        0
    } else {
        1 + completed_steps(steps.drop_first())
    }
}

/// The call chain that a walk over `steps` sees, innermost frame first: the
/// recorded address of each step that the walk completes.
pub open spec fn call_chain(steps: Seq<Step>) -> Seq<usize> {
    Seq::new(completed_steps(steps), |i: int| steps[i].address())
}

/// Whether a step with status `code` moved the cursor to a caller's frame.
/// Any other status ends the walk, an error as well as the end of the stack.
pub fn step_succeeded(code: i32) -> (succeeded: bool)
    ensures
        succeeded == (code > 0),
{
    code > 0
}

/// Whether a procedure-information query with status `code` found unwind
/// information for the cursor's address.
pub fn has_proc_info(code: i32) -> (found: bool)
    ensures
        found == (code == UNW_ESUCCESS),
{
    code == UNW_ESUCCESS
}

/// Computes the address to record for a frame from the cursor's instruction
/// pointer and the answer to the signal-frame query.
pub fn frame_address(ip: usize, signal_frame: i32) -> (address: usize)
    requires
        recordable(ip, signal_frame),
    ensures
        address == recorded_address(ip, signal_frame),
{
    if signal_frame > 0 {
        ip
    } else {
        ip - 1
    }
}

/// A walk completes at least the first `k` of `steps` if each of them was
/// completed by the unwinder, and exactly `k` if the next one was not.
pub proof fn lemma_completed_steps(steps: Seq<Step>, k: int)
    requires
        0 <= k <= steps.len(),
        forall|i: int| 0 <= i < k ==> (#[trigger] steps[i]).completed(),
    ensures
        completed_steps(steps) >= k,
        completed_steps(steps) <= steps.len(),
        k == steps.len() || !steps[k].completed() ==> completed_steps(steps) == k,
    decreases steps.len(),
{
    if steps.len() > 0 && steps.first().completed() {
        let rest = steps.drop_first();
        assert forall|i: int| 0 <= i < k - 1 implies (#[trigger] rest[i]).completed() by {
            assert(rest[i] == steps[i + 1]);
        }
        lemma_completed_steps(rest, if k > 0 { k - 1 } else { 0 });
    }
}

/// Each address of the call chain is the recorded address of the step at
/// the same position, and the unwinder completed that step.
pub proof fn lemma_chain_is_completed_prefix(steps: Seq<Step>, i: int)
    requires
        0 <= i < call_chain(steps).len(),
    ensures
        i < steps.len(),
        steps[i].completed(),
        call_chain(steps)[i] == steps[i].address(),
    decreases steps.len(),
{
    if i > 0 {
        let rest = steps.drop_first();
        lemma_chain_is_completed_prefix(rest, i - 1);
    }
}

} // verus!
