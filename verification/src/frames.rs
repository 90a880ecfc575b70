//! The fixed-capacity list in which a backtrace keeps its addresses.

use vstd::prelude::*;

verus! {

/// The address that a full list handed back.
#[derive(Clone, Copy, Debug, PartialEq, Eq, Structural)]
pub struct CapacityError {
    /// The address that found no room.
    pub element: usize,
}

/// An ordered list of at most `N` addresses, stored inline.
///
/// Its view is the sequence of the addresses pushed so far, oldest push first.
#[derive(Debug)]
pub struct Frames<const N: usize> {
    slots: [usize; N],
    len: usize,
}

impl<const N: usize> View for Frames<N> {
    type V = Seq<usize>;

    closed spec fn view(&self) -> Seq<usize> {
        self.slots@.take(self.len as int)
    }
}

impl<const N: usize> Clone for Frames<N> {
    /// A list that holds the same addresses.
    fn clone(&self) -> (copy: Self)
        ensures
            copy@ == self@,
    {
        proof {
            use_type_invariant(self);
        }
        Frames { slots: self.slots, len: self.len }
    }
}

impl<const N: usize> Frames<N> {
    /// What holds of every list: it counts no more addresses than it has
    /// room for.
    #[verifier::type_invariant]
    pub closed spec fn within_capacity(self) -> bool {
        self.len <= N
    }

    /// A list within its capacity shows at most `N` addresses.
    pub proof fn lemma_within_capacity(self)
        requires
            self.within_capacity(),
        ensures
            self@.len() <= N,
    {
    }

    /// An empty list.
    pub fn new() -> (frames: Self)
        ensures
            frames@ == Seq::<usize>::empty(),
    {
        Frames { slots: [0usize; N], len: 0 }
    }

    /// The number of addresses in the list, which never exceeds `N`.
    pub fn len(&self) -> (n: usize)
        ensures
            n == self@.len(),
            n <= N,
    {
        proof {
            use_type_invariant(self);
        }
        self.len
    }

    /// The address at `index`, counted from the oldest push.
    pub fn get(&self, index: usize) -> (address: Option<usize>)
        ensures
            index < self@.len() ==> address == Some(self@[index as int]),
            index >= self@.len() ==> address is None,
    {
        proof {
            use_type_invariant(self);
        }
        if index < self.len {
            Some(self.slots[index])
        } else {
            None
        }
    }

    /// Appends `address` if there is room, and hands it back if there is none.
    pub fn try_push(&mut self, address: usize) -> (pushed: Result<(), CapacityError>)
        ensures
            pushed is Ok <==> old(self)@.len() < N,
            pushed is Ok ==> final(self)@ == old(self)@.push(address),
            pushed matches Err(error) ==> error.element == address,
            pushed is Err ==> final(self)@ == old(self)@,
            final(self)@.len() <= N,
    {
        proof {
            use_type_invariant(&*self);
        }
        if self.len < N {
            self.slots[self.len] = address;
            self.len = self.len + 1;
            Ok(())
        } else {
            Err(CapacityError { element: address })
        }
    }

    /// Appends `address` to a list that has room for it.
    pub fn push(&mut self, address: usize)
        requires
            old(self)@.len() < N,
        ensures
            final(self)@ == old(self)@.push(address),
            final(self)@.len() <= N,
    {
        proof {
            use_type_invariant(&*self);
        }
        self.slots[self.len] = address;
        self.len = self.len + 1;
    }

    /// The addresses of the list as a slice, oldest push first.
    pub fn as_slice(&self) -> (addresses: &[usize])
        ensures
            addresses@ == self@,
    {
        proof {
            use_type_invariant(self);
        }
        let all: &[usize] = self.slots.as_slice();
        vstd::slice::slice_subrange(all, 0, self.len)
    }
}

} // verus!
