//! A growable, contiguous array with explicit length and capacity bookkeeping.
//!
//! Capacity starts at zero, becomes four on the first push and doubles each
//! time a push finds every slot in use. Elements are read back by index.
use vstd::prelude::*;

mod growth;

pub use growth::{
    capacity_after, grown_capacity, lemma_capacity_bounds, lemma_capacity_growth,
    lemma_capacity_monotone,
};

verus! {

/// A growable array of `T`.
///
/// The live elements are kept in `data`; `capacity` is the number of slots
/// the array has reserved, which follows the growth law of [`grown_capacity`].
pub struct MyVec<T> {
    data: Vec<T>,
    capacity: usize,
}

impl<T> View for MyVec<T> {
    type V = Seq<T>;

    closed spec fn view(&self) -> Seq<T> {
        self.data@
    }
}

impl<T> MyVec<T> {
    /// The number of reserved slots, as a mathematical value.
    pub closed spec fn spec_capacity(&self) -> nat {
        self.capacity as nat
    }

    /// The array's invariant: it holds no more elements than it has slots,
    /// and its slot count is the one the growth law gives for its length.
    pub closed spec fn wf(&self) -> bool {
        &&& self.data@.len() <= self.capacity
        &&& self.capacity as nat == capacity_after(self.data@.len())
    }

    /// An empty array with no slots reserved.
    pub fn new() -> (r: Self)
        ensures
            r.wf(),
            r@ == Seq::<T>::empty(),
            r.spec_capacity() == 0,
    {
        MyVec { data: Vec::new(), capacity: 0 }
    }

    /// The number of elements.
    pub fn len(&self) -> (r: usize)
        requires
            self.wf(),
        ensures
            r as nat == self@.len(),
    {
        self.data.len()
    }

    /// The number of reserved slots.
    pub fn capacity(&self) -> (r: usize)
        requires
            self.wf(),
        ensures
            r as nat == self.spec_capacity(),
            r as nat == capacity_after(self@.len()),
    {
        self.capacity
    }

    /// Appends `element` as the last element, reserving four slots on the
    /// first push and doubling the slots when all of them are in use.
    ///
    /// Zero-sized element types are not supported, and the slots after the
    /// push must fit in the address space.
    pub fn push(&mut self, element: T)
        requires
            old(self).wf(),
            vstd::layout::size_of::<T>() > 0,
            grown_capacity(old(self)@.len(), old(self).spec_capacity())
                * vstd::layout::size_of::<T>() <= isize::MAX,
        ensures
            final(self).wf(),
            final(self)@ == old(self)@.push(element),
            final(self).spec_capacity() == grown_capacity(old(self)@.len(), old(self).spec_capacity()),
    {
        let ghost n = self.data@.len();
        proof {
            lemma_capacity_bounds(n);
            lemma_capacity_bounds(n + 1);
        }
        if self.capacity == 0 {
            self.data = Vec::with_capacity(4);
            self.capacity = 4;
        } else if self.data.len() == self.capacity {
            let cap = self.capacity;
            proof {
                let size = vstd::layout::size_of::<T>();
                assert(cap * 2 <= cap * 2 * size) by (nonlinear_arith)
                    requires size > 0;
            }
            self.data.reserve(cap);
            self.capacity = cap * 2;
        }
        self.data.push(element);
    }

    /// The element at `index`, or `None` when `index` is not below the length.
    pub fn get(&self, index: usize) -> (r: Option<&T>)
        ensures
            index < self@.len() ==> r == Some(&self@[index as int]),
            index >= self@.len() ==> r is None,
    {
        if index < self.data.len() {
            Some(&self.data[index])
        } else {
            None
        }
    }
}

/// The contents and capacity of a new array after `values` are pushed onto
/// it in order, one step per push as the contracts of `new` and `push` give
/// them.
pub open spec fn after_pushes<T>(values: Seq<T>) -> (Seq<T>, nat)
    decreases values.len(),
{
    if values.len() == 0 {
        (Seq::empty(), 0)
    } else {
        let (s, c) = after_pushes(values.drop_last());
        (s.push(values.last()), grown_capacity(s.len(), c))
    }
}

/// Pushing values in order onto a new array gives back exactly those values:
/// the element at each index below their number is the value pushed at that
/// position (so `get` finds it, and finds nothing from that number on), the
/// length is their number, and the capacity is the one the growth law gives
/// for that length.
pub proof fn lemma_round_trip<T>(values: Seq<T>)
    ensures
        after_pushes(values).0 == values,
        after_pushes(values).0.len() == values.len(),
        forall|i: int| 0 <= i < values.len() ==> #[trigger] after_pushes(values).0[i] == values[i],
        after_pushes(values).1 == capacity_after(values.len()),
    decreases values.len(),
{
    if values.len() > 0 {
        lemma_round_trip(values.drop_last());
        assert(values.drop_last().push(values.last()) =~= values);
    } else {
        assert(values =~= Seq::<T>::empty());
    }
}

} // verus!
