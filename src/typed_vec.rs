//! Buffers indexed by a dedicated index type rather than a bare integer.

use vstd::prelude::*;

use crate::allocator::{Allocator, GlobalAllocator};
use crate::num::IndexSize;
use crate::sized_vec::{SizedVec, SizedVecGrowthError};

verus! {

/// A type that indexes a [`TypedVec`]: a thin wrapper around an integer of
/// the buffer's index width.
pub trait TypedVecIndex: Copy {
    /// The integer width of the index.
    type Index: IndexSize;

    /// The integer that this index stands for.
    spec fn raw_spec(self) -> Self::Index;

    /// The integer that this index stands for.
    fn raw(self) -> (r: Self::Index)
        ensures
            r == self.raw_spec(),
    ;

    /// The index that stands for `raw`.
    fn from_raw(raw: Self::Index) -> (r: Self)
        ensures
            r.raw_spec() == raw,
    ;
}

impl TypedVecIndex for u32 {
    type Index = u32;

    open spec fn raw_spec(self) -> u32 {
        self
    }

    fn raw(self) -> (r: u32) {
        self
    }

    fn from_raw(raw: u32) -> (r: u32) {
        raw
    }
}

impl TypedVecIndex for usize {
    type Index = usize;

    open spec fn raw_spec(self) -> usize {
        self
    }

    fn raw(self) -> (r: usize) {
        self
    }

    fn from_raw(raw: usize) -> (r: usize) {
        raw
    }
}

/// A [`SizedVec`] that only accepts indices of type `I`, so that indices
/// meant for different buffers cannot be mixed up.
pub struct TypedVec<T, I: TypedVecIndex, A: Allocator>(SizedVec<T, I::Index, A>);

impl<T, I: TypedVecIndex, A: Allocator> View for TypedVec<T, I, A> {
    type V = Seq<T>;

    closed spec fn view(&self) -> Seq<T> {
        self.0@
    }
}

impl<T, I: TypedVecIndex> TypedVec<T, I, GlobalAllocator> {
    /// An empty buffer on the heap.
    pub fn new() -> (r: Self)
        ensures
            r.wf(),
            r@ == Seq::<T>::empty(),
    {
        TypedVec(SizedVec::new())
    }

    /// An empty buffer on the heap with room for `num_items` items.
    pub fn with_capacity(num_items: I::Index) -> (r: Self)
        requires
            0 <= num_items.int_value(),
            num_items.int_value() * size_of::<T>() <= usize::MAX,
        ensures
            r.wf(),
            r@ == Seq::<T>::empty(),
            r.capacity_spec() == num_items.int_value(),
    {
        TypedVec(SizedVec::with_capacity(num_items))
    }
}

impl<T, I: TypedVecIndex> Default for TypedVec<T, I, GlobalAllocator> {
    /// An empty buffer on the heap.
    fn default() -> (r: Self)
        ensures
            r.wf(),
            r@ == Seq::<T>::empty(),
    {
        Self::new()
    }
}

impl<T, I: TypedVecIndex, A: Allocator> TypedVec<T, I, A> {
    /// The buffer is well formed.
    pub closed spec fn wf(&self) -> bool {
        self.0.wf()
    }

    /// How many items the buffer can hold without growing.
    pub closed spec fn capacity_spec(&self) -> int {
        self.0.capacity_spec()
    }

    /// An empty buffer that grows through `allocator`.
    pub fn with_allocator(allocator: A) -> (r: Self)
        ensures
            r.wf(),
            r@ == Seq::<T>::empty(),
    {
        TypedVec(SizedVec::with_allocator(allocator))
    }

    /// An empty buffer that grows through `allocator`, with room for
    /// `num_items` items. Fails if the allocator does not provide the memory.
    pub fn with_allocator_and_capacity(allocator: A, num_items: I::Index) -> (r: Result<
        Self,
        SizedVecGrowthError,
    >)
        requires
            0 <= num_items.int_value(),
        ensures
            match r {
                Ok(v) => v.wf() && v@ == Seq::<T>::empty() && v.capacity_spec()
                    == num_items.int_value(),
                Err(e) => e == SizedVecGrowthError::ReallocationFailed && num_items.int_value()
                    > 0,
            },
    {
        match SizedVec::with_allocator_and_capacity(allocator, num_items) {
            Ok(v) => Ok(TypedVec(v)),
            Err(e) => Err(e),
        }
    }

    /// The item at `idx`, or `None` where it is past the end.
    pub fn get(&self, idx: I) -> (r: Option<&T>)
        requires
            self.wf(),
        ensures
            r == if 0 <= idx.raw_spec().int_value() < self@.len() {
                Some(&self@[idx.raw_spec().int_value()])
            } else {
                None::<&T>
            },
    {
        self.0.get(idx.raw())
    }

    /// The item at `idx`, for changing in place, or `None` where it is past
    /// the end.
    pub fn get_mut(&mut self, idx: I) -> (r: Option<&mut T>)
        requires
            old(self).wf(),
        ensures
            match r {
                Some(item) => {
                    &&& 0 <= idx.raw_spec().int_value() < old(self)@.len()
                    &&& *item == old(self)@[idx.raw_spec().int_value()]
                    &&& final(self)@ == old(self)@.update(
                        idx.raw_spec().int_value(),
                        *final(item),
                    )
                },
                None => {
                    &&& !(0 <= idx.raw_spec().int_value() < old(self)@.len())
                    &&& final(self)@ == old(self)@
                },
            },
            final(self).wf(),
    {
        self.0.get_mut(idx.raw())
    }

    /// Appends `item`. Fails, changing nothing, where the buffer cannot grow
    /// (see [`SizedVec::push`]).
    pub fn push(&mut self, item: T) -> (r: Result<(), SizedVecGrowthError>)
        requires
            old(self).wf(),
        ensures
            final(self).wf(),
            match r {
                Ok(()) => final(self)@ == old(self)@.push(item),
                Err(_) => final(self)@ == old(self)@,
            },
    {
        self.0.push(item)
    }
}

} // verus!
