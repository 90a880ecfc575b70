//! The backtrace and the walk that fills it.

use vstd::prelude::*;
use crate::context::RegisterContext;
use crate::frames::Frames;
use crate::unwind::{
    all_valid, call_chain, frame_address, has_proc_info, lemma_completed_steps, recordable,
    recorded_address, step_succeeded, Step, UNW_ESUCCESS,
};

verus! {

/// A backtrace: the addresses of at most `N` frames of a call stack.
///
/// Nothing in it is allocated, so it can be taken where allocation is out of
/// the question, as in a signal or interrupt handler.
#[derive(Debug)]
pub struct Backtrace<const N: usize> {
    /// One address for each frame, from the most recent call to the oldest.
    ///
    /// For an ordinary frame this is not the return address but the byte
    /// before it, which lies inside the call instruction and so inside the
    /// calling function even when the call is that function's last
    /// instruction.
    pub frames: Frames<N>,
    /// Whether the stack had frames for which `frames` had no room left.
    pub frames_omitted: bool,
}

/// The part of a call chain that is kept where there is room for `room`
/// more addresses: all of it if it fits, else its first `room` addresses.
pub open spec fn kept(chain: Seq<usize>, room: int) -> Seq<usize> {
    if chain.len() <= room {
        chain
    } else {
        chain.take(room)
    }
}

impl<const N: usize> Clone for Backtrace<N> {
    /// A backtrace with the same addresses and the same mark.
    fn clone(&self) -> (copy: Self)
        ensures
            copy.frames@ == self.frames@,
            copy.frames_omitted == self.frames_omitted,
    {
        Backtrace { frames: self.frames.clone(), frames_omitted: self.frames_omitted }
    }
}

impl<const N: usize> Default for Backtrace<N> {
    /// An empty backtrace.
    fn default() -> (backtrace: Self)
        ensures
            backtrace.frames@ == Seq::<usize>::empty(),
            !backtrace.frames_omitted,
    {
        Backtrace { frames: Frames::new(), frames_omitted: false }
    }
}

impl<const N: usize> Backtrace<N> {
    /// Records the frame on which the cursor stands after a completed step,
    /// given its instruction pointer and the answer to the signal-frame
    /// query, and says whether the walk goes on.
    ///
    /// With room left the frame's address is appended and the walk goes on.
    /// Without room the backtrace is marked as having omitted frames and the
    /// walk ends.
    pub fn record(&mut self, ip: usize, signal_frame: i32) -> (more: bool)
        requires
            recordable(ip, signal_frame),
        ensures
            more == (old(self).frames@.len() < N),
            more ==> final(self).frames@ == old(self).frames@.push(
                recorded_address(ip, signal_frame),
            ),
            more ==> final(self).frames_omitted == old(self).frames_omitted,
            !more ==> final(self).frames@ == old(self).frames@,
            !more ==> final(self).frames_omitted,
            final(self).frames@.len() <= N,
    {
        let address = frame_address(ip, signal_frame);
        match self.frames.try_push(address) {
            Ok(()) => true,
            Err(_) => {
                self.frames_omitted = true;
                false
            },
        }
    }

    /// Walks the stack along `steps`, the unwinder's reports for the
    /// successive steps of its cursor, and collects the frames.
    ///
    /// The walk ends with the first step that the unwinder did not complete,
    /// be it at the end of the stack or on an error, or when the reports run
    /// out. Each completed step adds the address of the frame it reached.
    /// A completed step that finds the list full marks the backtrace as
    /// having omitted frames and ends the walk at once.
    pub fn fill_from_cursor(&mut self, steps: &[Step])
        requires
            all_valid(steps@),
        ensures
            final(self).frames@ == old(self).frames@ + kept(
                call_chain(steps@),
                N - old(self).frames@.len(),
            ),
            final(self).frames_omitted == (old(self).frames_omitted || call_chain(steps@).len() > N
                - old(self).frames@.len()),
    {
        let ghost before = self.frames@;
        let ghost was_omitted = self.frames_omitted;
        proof {
            use_type_invariant(&self.frames);
            self.frames.lemma_within_capacity();
        }
        let mut i: usize = 0;
        loop
            invariant_except_break
                i <= steps@.len(),
                all_valid(steps@),
                forall|j: int| 0 <= j < i ==> (#[trigger] steps@[j]).completed(),
                self.frames@ == before + Seq::new(i as nat, |j: int| steps@[j].address()),
                self.frames@.len() <= N,
                self.frames_omitted == was_omitted,
            ensures
                self.frames@ == before + kept(call_chain(steps@), N - before.len()),
                self.frames_omitted == (was_omitted || call_chain(steps@).len() > N - before.len()),
            decreases steps@.len() - i,
        {
            if i >= steps.len() || !step_succeeded(steps[i].code) {
                proof {
                    lemma_completed_steps(steps@, i as int);
                }
                break ;
            }
            if !self.record(steps[i].ip, steps[i].signal_frame) {
                proof {
                    lemma_completed_steps(steps@, i + 1);
                }
                break ;
            }
            i = i + 1;
        }
    }

    /// Captures the backtrace of a stack, given the unwinder's reports for
    /// the successive steps of a cursor that started in the capturing
    /// function: the first completed step reaches that function's caller,
    /// which becomes the first frame.
    ///
    /// This cannot fail: if no step is completed, the backtrace is empty.
    pub fn capture(steps: &[Step]) -> (backtrace: Self)
        requires
            all_valid(steps@),
        ensures
            backtrace.frames@ == kept(call_chain(steps@), N as int),
            backtrace.frames_omitted == (call_chain(steps@).len() > N),
    {
        let mut result = Self::default();
        result.fill_from_cursor(steps);
        result
    }

    /// Starts the backtrace of an interrupted execution from its register
    /// state, given the status of the procedure-information query that the
    /// unwinder answered with the snapshot applied to its cursor.
    ///
    /// Without unwind information for the interrupted address there is no
    /// backtrace. With it, the snapshot's program counter becomes the first
    /// frame, as it is: it is the interrupted instruction, not a return
    /// address.
    pub fn begin_from_context<C: RegisterContext>(ctx: &C, proc_info: i32) -> (started: Option<Self>)
        requires
            N > 0 || proc_info != UNW_ESUCCESS,
        ensures
            started is Some <==> proc_info == UNW_ESUCCESS,
            started matches Some(backtrace) ==> backtrace.frames@ == seq![ctx.program_counter()],
            started matches Some(backtrace) ==> !backtrace.frames_omitted,
    {
        if !has_proc_info(proc_info) {
            return None;
        }
        let mut result = Self::default();
        result.frames.push(ctx.ip());
        Some(result)
    }

    /// Captures the backtrace of an interrupted execution from its register
    /// state, given the status of the procedure-information query and the
    /// unwinder's reports for the successive steps of a cursor to which the
    /// snapshot was applied.
    ///
    /// The first frame is the snapshot's program counter, unadjusted; the
    /// frames of the callers of the interrupted function follow. Without
    /// unwind information for the interrupted address there is no backtrace.
    pub fn capture_from_context<C: RegisterContext>(
        ctx: &C,
        proc_info: i32,
        steps: &[Step],
    ) -> (captured: Option<Self>)
        requires
            N > 0 || proc_info != UNW_ESUCCESS,
            all_valid(steps@),
        ensures
            captured is Some <==> proc_info == UNW_ESUCCESS,
            captured matches Some(backtrace) ==> backtrace.frames@ == seq![ctx.program_counter()]
                + kept(call_chain(steps@), N - 1),
            captured matches Some(backtrace) ==> backtrace.frames_omitted == (call_chain(
                steps@,
            ).len() > N - 1),
    {
        match Self::begin_from_context(ctx, proc_info) {
            None => None,
            Some(mut result) => {
                result.fill_from_cursor(steps);
                Some(result)
            },
        }
    }
}

} // verus!
