use vstd::prelude::*;

verus! {

/// An owned, growable sequence of integers with an explicit capacity. The
/// backing storage may hold room for more elements than are currently used,
/// so that repeated appends reallocate only rarely; the capacity never falls
/// below the length.
pub struct GrowableSeq {
    elems: Vec<i64>,
    cap: usize,
}

impl View for GrowableSeq {
    type V = Seq<i64>;

    closed spec fn view(&self) -> Seq<i64> {
        self.elems@
    }
}

impl GrowableSeq {
    /// How many elements the backing storage can hold.
    pub closed spec fn spec_capacity(&self) -> nat {
        self.cap as nat
    }

    /// The storage is never smaller than the sequence it holds.
    pub open spec fn wf(&self) -> bool {
        self@.len() <= self.spec_capacity()
    }

    /// The capacity that one append leaves behind: unchanged while there is
    /// room, otherwise grown geometrically (a first allocation holds one
    /// element, a full one doubles).
    pub open spec fn grown_capacity(&self) -> nat {
        if self@.len() < self.spec_capacity() {
            self.spec_capacity()
        } else if self.spec_capacity() == 0 {
            1
        } else {
            2 * self.spec_capacity()
        }
    }

    /// A new sequence is empty and owns no storage yet.
    pub fn new() -> (s: GrowableSeq)
        ensures
            s@ == Seq::<i64>::empty(),
            s.spec_capacity() == 0,
            s.wf(),
    {
        GrowableSeq { elems: Vec::new(), cap: 0 }
    }

    /// The current length of the sequence.
    pub fn length(&self) -> (n: usize)
        ensures
            n == self@.len(),
    {
        self.elems.len()
    }

    /// The capacity of the backing storage, in elements.
    pub fn capacity(&self) -> (c: usize)
        ensures
            c == self.spec_capacity(),
    {
        self.cap
    }

    /// The element stored at position `i`.
    pub fn element_at(&self, i: usize) -> (v: i64)
        requires
            i < self@.len(),
        ensures
            v == self@[i as int],
    {
        self.elems[i]
    }

    /// Appends `value` at the end. When the storage is full, a larger
    /// backing allocation is obtained first and the elements move into it;
    /// the length grows by exactly one and the order of the elements
    /// already present is kept.
    pub fn append_to_sequence(&mut self, value: i64)
        requires
            old(self).wf(),
            old(self)@.len() < usize::MAX / 2,
        ensures
            final(self)@ == old(self)@.push(value),
            final(self)@.len() == old(self)@.len() + 1,
            final(self).spec_capacity() == old(self).grown_capacity(),
            final(self).wf(),
    {
        if self.elems.len() == self.cap {
            let new_cap: usize = if self.cap == 0 {
                1
            } else {
                self.cap * 2
            };
            self.elems.reserve(new_cap - self.elems.len());
            self.cap = new_cap;
        }
        self.elems.push(value);
    }
}

/// Appending `first` and then `second` to a new, empty sequence yields
/// exactly those two values in that order, with room for both: the length
/// is two and the capacity is at least the length.
pub fn pair_sequence(first: i64, second: i64) -> (s: GrowableSeq)
    ensures
        s@ =~= seq![first, second],
        s.spec_capacity() >= 2,
        s.wf(),
{
    let mut s = GrowableSeq::new();
    s.append_to_sequence(first);
    s.append_to_sequence(second);
    s
}

} // verus!
