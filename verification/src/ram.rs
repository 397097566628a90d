//! Scratch memory: a fixed-capacity, frame-addressed slot store.
//!
//! Tower-field intermediates that must survive from one round to the next
//! live here.  All reads and writes address `frame + index`; shifting the
//! frame lets a nested sub-computation reuse the same backing array as an
//! independent scope.  Frame shifts must balance exactly around every
//! nested sub-computation.

use vstd::prelude::*;

verus! {

/// Frame-addressed slot store for values of a tower type.
pub struct RAM<N: Copy> {
    data: Vec<Option<N>>,
    frame: usize,
}

impl<N: Copy> RAM<N> {
    /// The slots, frame offset not applied.
    pub closed spec fn slots(&self) -> Seq<Option<N>> {
        self.data@
    }

    /// The current frame offset.
    pub closed spec fn frame(&self) -> nat {
        self.frame as nat
    }

    pub closed spec fn capacity(&self) -> nat {
        self.data@.len()
    }

    /// The frame never exceeds the capacity.
    pub open spec fn well_formed(&self) -> bool {
        self.frame() <= self.capacity()
    }

    /// The slot at `frame + index`, as the reads and writes see it.
    pub open spec fn slot(&self, index: int) -> Option<N> {
        self.slots()[self.frame() + index]
    }

    pub fn new(size: usize) -> (r: Self)
        ensures
            r.well_formed(),
            r.frame() == 0,
            r.capacity() == size,
            forall|i: int| 0 <= i < size ==> r.slots()[i] is None,
    {
        let mut data: Vec<Option<N>> = Vec::new();
        let mut k: usize = 0;
        while k < size
            invariant
                k <= size,
                data@.len() == k,
                forall|i: int| 0 <= i < k ==> data@[i] is None,
            decreases size - k,
        {
            data.push(None);
            k = k + 1;
        }
        RAM { data, frame: 0 }
    }

    pub fn write(&mut self, value: N, index: usize)
        requires
            old(self).frame() + index < old(self).capacity(),
        ensures
            final(self).well_formed() == old(self).well_formed(),
            final(self).frame() == old(self).frame(),
            final(self).capacity() == old(self).capacity(),
            final(self).slot(index as int) == Some(value),
            forall|i: int|
                0 <= i < old(self).capacity() && i != old(self).frame() + index
                    ==> final(self).slots()[i] == old(self).slots()[i],
    {
        let cap: usize = self.data.len();
        let at: usize = self.frame + index;
        self.data.set(at, Some(value));
    }

    pub fn read(&self, index: usize) -> (r: N)
        requires
            self.frame() + index < self.capacity(),
            self.slot(index as int) is Some,
        ensures
            Some(r) == self.slot(index as int),
    {
        let cap: usize = self.data.len();
        let at: usize = self.frame + index;
        self.data[at].unwrap()
    }

    /// Clears the slot at `frame + index`.
    pub fn free(&mut self, index: usize)
        requires
            old(self).frame() + index < old(self).capacity(),
        ensures
            final(self).well_formed() == old(self).well_formed(),
            final(self).frame() == old(self).frame(),
            final(self).capacity() == old(self).capacity(),
            final(self).slot(index as int) is None,
            forall|i: int|
                0 <= i < old(self).capacity() && i != old(self).frame() + index
                    ==> final(self).slots()[i] == old(self).slots()[i],
    {
        let cap: usize = self.data.len();
        let at: usize = self.frame + index;
        self.data.set(at, None);
    }

    /// Shifts the addressing base up, opening a fresh scope for a nested
    /// sub-computation.
    pub fn inc_frame(&mut self, frame: usize)
        requires
            old(self).frame() + frame <= old(self).capacity(),
        ensures
            final(self).well_formed(),
            final(self).frame() == old(self).frame() + frame,
            final(self).capacity() == old(self).capacity(),
            final(self).slots() == old(self).slots(),
    {
        let cap: usize = self.data.len();
        self.frame = self.frame + frame;
    }

    /// Shifts the addressing base back down; must mirror a prior
    /// `inc_frame` of the same amount.
    pub fn dec_frame(&mut self, frame: usize)
        requires
            frame <= old(self).frame(),
        ensures
            old(self).well_formed() ==> final(self).well_formed(),
            final(self).frame() == old(self).frame() - frame,
            final(self).capacity() == old(self).capacity(),
            final(self).slots() == old(self).slots(),
    {
        self.frame = self.frame - frame;
    }
}

/// The two stores have the same frame and capacity.
pub open spec fn ram_frame_kept<N: Copy>(a: RAM<N>, b: RAM<N>) -> bool {
    &&& b.frame() == a.frame()
    &&& b.capacity() == a.capacity()
}

/// Every slot outside the window `[frame + lo, frame + hi)` is unchanged;
/// a sub-computation touches only its own frame-relative window.
pub open spec fn ram_preserved_outside<N: Copy>(a: RAM<N>, b: RAM<N>, lo: int, hi: int) -> bool {
    forall|i: int|
        0 <= i < a.capacity() && !(a.frame() + lo <= i < a.frame() + hi) ==> b.slots()[i]
            == a.slots()[i]
}

} // verus!
