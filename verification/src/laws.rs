//! What holds of every backtrace that a walk produces.
//!
//! Each law speaks of a backtrace through the relation that the capturing
//! functions establish between their result and the unwinder's reports, so
//! it holds of whatever those functions return.

use vstd::prelude::*;
use crate::backtrace::{kept, Backtrace};
use crate::unwind::{call_chain, lemma_chain_is_completed_prefix, recorded_address, Step};

verus! {

/// A stack deeper than the backtrace's capacity fills the backtrace and is
/// marked as truncated: the backtrace of a call chain of more than `N`
/// frames has exactly `N` frames and says that frames were omitted.
pub proof fn lemma_deep_stack_is_truncated<const N: usize>(
    backtrace: Backtrace<N>,
    steps: Seq<Step>,
)
    requires
        backtrace.frames@ == kept(call_chain(steps), N as int),
        backtrace.frames_omitted == (call_chain(steps).len() > N),
        call_chain(steps).len() > N,
    ensures
        backtrace.frames@.len() == N,
        backtrace.frames_omitted,
{
}

/// A stack that fits is captured whole: the backtrace of a call chain of at
/// most `N` frames has one frame for each of them and omits none.
pub proof fn lemma_shallow_stack_is_complete<const N: usize>(
    backtrace: Backtrace<N>,
    steps: Seq<Step>,
)
    requires
        backtrace.frames@ == kept(call_chain(steps), N as int),
        backtrace.frames_omitted == (call_chain(steps).len() > N),
        call_chain(steps).len() <= N,
    ensures
        backtrace.frames@.len() == call_chain(steps).len(),
        backtrace.frames@ == call_chain(steps),
        !backtrace.frames_omitted,
{
}

/// Capturing is repeatable: two backtraces of the same capacity, captured
/// from the same reports, hold the same addresses and the same mark.
pub proof fn lemma_capture_is_repeatable<const N: usize>(
    first: Backtrace<N>,
    second: Backtrace<N>,
    steps: Seq<Step>,
)
    requires
        first.frames@ == kept(call_chain(steps), N as int),
        first.frames_omitted == (call_chain(steps).len() > N),
        second.frames@ == kept(call_chain(steps), N as int),
        second.frames_omitted == (call_chain(steps).len() > N),
    ensures
        first.frames@ == second.frames@,
        first.frames_omitted == second.frames_omitted,
{
}

/// The frames follow the call order: the frame at position `i` of a
/// backtrace is the one that the walk reached with its step `i`, so the
/// first frame belongs to the immediate caller, the second to the caller's
/// caller, and so on.
pub proof fn lemma_frames_follow_call_order<const N: usize>(
    backtrace: Backtrace<N>,
    steps: Seq<Step>,
    i: int,
)
    requires
        backtrace.frames@ == kept(call_chain(steps), N as int),
        0 <= i < backtrace.frames@.len(),
    ensures
        i < steps.len(),
        steps[i].completed(),
        backtrace.frames@[i] == recorded_address(steps[i].ip, steps[i].signal_frame),
{
    lemma_chain_is_completed_prefix(steps, i);
}

/// The address recorded for an ordinary frame lies in the call instruction
/// and so in the calling function: if the function occupies the addresses
/// from `start` up to, not including, `end`, and a call instruction in it
/// begins at `call` and returns to `return_address`, which is at most `end`
/// (it is `end` when the call is the function's last instruction), then the
/// recorded address is the byte before the return address, a byte of the
/// call instruction and one of the function's own.
pub proof fn lemma_recorded_address_is_in_caller(
    start: usize,
    end: usize,
    call: usize,
    return_address: usize,
    signal_frame: i32,
)
    requires
        signal_frame <= 0,
        start <= call < return_address <= end,
    ensures
        recorded_address(return_address, signal_frame) == return_address - 1,
        call <= recorded_address(return_address, signal_frame) < return_address,
        start <= recorded_address(return_address, signal_frame) < end,
{
}

/// The address recorded for a signal frame is the interrupted instruction
/// itself.
pub proof fn lemma_signal_frame_is_exact(ip: usize, signal_frame: i32)
    requires
        signal_frame > 0,
    ensures
        recorded_address(ip, signal_frame) == ip,
{
}

/// A backtrace captured from a register snapshot starts with the
/// snapshot's program counter, unadjusted, and goes on with the callers of
/// the interrupted function in call order.
pub proof fn lemma_context_frames<const N: usize>(
    backtrace: Backtrace<N>,
    program_counter: usize,
    steps: Seq<Step>,
    i: int,
)
    requires
        N > 0,
        backtrace.frames@ == seq![program_counter] + kept(call_chain(steps), N - 1),
        1 <= i < backtrace.frames@.len(),
    ensures
        backtrace.frames@[0] == program_counter,
        i - 1 < steps.len(),
        steps[i - 1].completed(),
        backtrace.frames@[i] == recorded_address(steps[i - 1].ip, steps[i - 1].signal_frame),
{
    lemma_chain_is_completed_prefix(steps, i - 1);
}

} // verus!
