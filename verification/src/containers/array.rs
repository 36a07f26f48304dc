use vstd::prelude::*;
use vstd::layout::size_of;

verus! {

/// Whether a buffer for `cap` elements of `T` can be requested at all: its
/// size in bytes must not exceed `isize::MAX`.
pub open spec fn valid_capacity<T>(cap: usize) -> bool {
    cap * size_of::<T>() <= isize::MAX
}

/// A contiguous sequence whose capacity is fixed when it is built. The live
/// elements are the slots `[0, size)`; the slots from `size` up to the
/// capacity hold nothing. The buffer is reserved once, for the whole
/// capacity, and is never grown.
pub struct Array<T> {
    slots: Vec<T>,
    cap: usize,
}

impl<T> View for Array<T> {
    type V = Seq<T>;

    /// The live elements, slot 0 first.
    closed spec fn view(&self) -> Seq<T> {
        self.slots@
    }
}

impl<T> Array<T> {
    /// The capacity fixed at construction.
    pub closed spec fn spec_capacity(&self) -> usize {
        self.cap
    }

    /// The live elements fit the capacity.
    pub open spec fn wf(&self) -> bool {
        self@.len() <= self.spec_capacity()
    }

    /// Reserves room for `cap` elements and constructs none of them.
    pub fn with_capacity(cap: usize) -> (arr: Self)
        requires
            valid_capacity::<T>(cap),
        ensures
            arr.wf(),
            arr@ == Seq::<T>::empty(),
            arr.spec_capacity() == cap,
    {
        Array { slots: Vec::with_capacity(cap), cap }
    }

    /// The element in slot `index`, by value.
    pub fn at(&self, index: usize) -> (value: T) where T: Copy
        requires
            index < self@.len(),
        ensures
            value == self@[index as int],
    {
        self.slots[index]
    }

    /// Puts `value` into the live slot `index`. The value that was there is
    /// released before the new one takes its place; no other slot changes.
    pub fn set(&mut self, index: usize, value: T)
        requires
            index < old(self)@.len(),
        ensures
            final(self)@ == old(self)@.update(index as int, value),
            final(self).spec_capacity() == old(self).spec_capacity(),
    {
        self.slots[index] = value;
    }

    /// Takes the last live element out and hands it to the caller, or
    /// returns `None` and changes nothing if there is none.
    pub fn pop(&mut self) -> (popped: Option<T>)
        ensures
            old(self)@.len() == 0 ==> popped is None && final(self)@ == old(self)@,
            old(self)@.len() > 0 ==> popped == Some(old(self)@.last()) && final(self)@ == old(
                self,
            )@.drop_last(),
            final(self).spec_capacity() == old(self).spec_capacity(),
    {
        self.slots.pop()
    }

    /// The number of live elements.
    pub fn size(&self) -> (n: usize)
        ensures
            n == self@.len(),
    {
        self.slots.len()
    }

    /// The number of slots.
    #[verifier::when_used_as_spec(spec_capacity)]
    pub fn capacity(&self) -> (cap: usize)
        ensures
            cap == self.spec_capacity(),
    {
        self.cap
    }

    /// Whether no slot is live.
    pub fn empty(&self) -> (none: bool)
        ensures
            none <==> self@.len() == 0,
    {
        self.slots.len() == 0
    }

    /// Reading a slot right after writing it gives the value written, and the
    /// write moves neither the size nor any other slot.
    pub proof fn lemma_set_then_at(before: Self, after: Self, index: usize, value: T)
        requires
            index < before@.len(),
            after@ == before@.update(index as int, value),
        ensures
            after@[index as int] == value,
            after@.len() == before@.len(),
            forall|j: int| 0 <= j < before@.len() && j != index ==> after@[j] == before@[j],
    {
    }
}

impl<T: Clone> Array<T> {
    /// Puts a clone of `value` into every slot up to the capacity: a live
    /// slot gives up what it held, the others become live.
    fn fill(&mut self, value: T)
        requires
            old(self).wf(),
        ensures
            final(self).wf(),
            final(self).spec_capacity() == old(self).spec_capacity(),
            final(self)@.len() == old(self).spec_capacity(),
            forall|i: int|
                0 <= i < final(self)@.len() ==> cloned(value, #[trigger] final(self)@[i]),
    {
        let cap = self.cap;
        let mut i: usize = 0;
        while i < cap
            invariant
                i <= cap,
                cap == self.cap,
                self.cap == old(self).cap,
                self.slots@.len() <= cap,
                i <= self.slots@.len(),
                forall|j: int| 0 <= j < i ==> cloned(value, #[trigger] self.slots@[j]),
            decreases cap - i,
        {
            let val = value.clone();
            if i < self.slots.len() {
                self.slots[i] = val;
            } else {
                self.slots.push(val);
            }
            i = i + 1;
        }
    }

    /// An array of capacity `cap` with every slot live and holding a clone
    /// of `value`.
    pub fn with(value: T, cap: usize) -> (arr: Self)
        requires
            valid_capacity::<T>(cap),
        ensures
            arr.wf(),
            arr.spec_capacity() == cap,
            arr@.len() == cap,
            forall|i: int| 0 <= i < cap ==> cloned(value, #[trigger] arr@[i]),
    {
        let mut arr = Array::with_capacity(cap);
        arr.fill(value);
        arr
    }
}

impl<T> core::ops::Deref for Array<T> {
    type Target = [T];

    /// The live elements as one contiguous slice.
    fn deref(&self) -> (slice: &[T])
        ensures
            slice@ == self@,
    {
        self.slots.as_slice()
    }
}

impl<T> core::ops::DerefMut for Array<T> {
    /// The live elements as one contiguous slice, open to writes. What the
    /// caller leaves in the slice is what the array holds afterwards.
    fn deref_mut(&mut self) -> (slice: &mut [T])
        ensures
            slice@ == old(self)@,
            final(self)@ == final(slice)@,
            final(self).spec_capacity() == old(self).spec_capacity(),
    {
        self.slots.as_mut_slice()
    }
}

} // verus!
