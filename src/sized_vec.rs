//! A growable buffer whose length, capacity and indices use an integer width
//! of the caller's choosing, and which grows through a pluggable allocator.

use vstd::prelude::*;

use crate::allocator::{Allocator, GlobalAllocator};
use crate::mem::{MemoryAmount, ReservedMemory};
use crate::io::Writer;
use crate::num::IndexSize;

verus! {

/// How many items the first allocation of a buffer holds: one for items of at
/// least 1024 bytes, eight for single bytes, four otherwise. Small items come
/// several to a cache line.
pub open spec fn base_alloc_count(item_size: nat) -> int {
    if item_size == 1 {
        8
    } else if item_size < 1024 {
        4
    } else {
        1
    }
}

/// The capacity that a full buffer of capacity `capacity` grows to: the base
/// count for an empty buffer, else twice as much; either saturates at `max`.
pub open spec fn grown_capacity(capacity: int, max: int, item_size: nat) -> int {
    if capacity == 0 {
        if base_alloc_count(item_size) > max {
            max
        } else {
            base_alloc_count(item_size)
        }
    } else if 2 * capacity > max {
        max
    } else {
        2 * capacity
    }
}

/// A [`Vec`]-like buffer with a custom index type `S`. Indices narrower than a
/// pointer make large collections of small items cheaper and friendlier to
/// caches.
///
/// The buffer asks its allocator `A` for its capacity, so that an allocator
/// can refuse to let it grow.
pub struct SizedVec<T, S: IndexSize, A: Allocator> {
    capacity: S,
    len: S,
    items: Vec<T>,
    block: ReservedMemory,
    alloc: A,
}

/// An error that occurred while changing a [`SizedVec`]'s capacity.
#[derive(Clone, Copy, PartialEq, Eq, Structural, Debug)]
pub enum SizedVecReallocError {
    /// The new capacity is smaller than the number of items in the buffer.
    CannotShrink,
    /// The buffer's allocator did not provide the memory.
    ReallocationFailed,
}

/// An error that occurred while growing a [`SizedVec`].
#[derive(Clone, Copy, PartialEq, Eq, Structural, Debug)]
pub enum SizedVecGrowthError {
    /// The buffer's allocator did not provide the memory.
    ReallocationFailed,
    /// The capacity would exceed `S::MAX`, the largest value of the buffer's
    /// index type.
    MaxPossibleCapacity,
}

/// Declares `core::ops::RangeFrom`, whose one field is public, so that it can
/// select positions.
#[verifier::external_type_specification]
#[verifier::reject_recursive_types(Idx)]
pub struct ExRangeFrom<Idx>(core::ops::RangeFrom<Idx>);

/// Declares `core::ops::RangeTo`, whose one field is public, so that it can
/// select positions.
#[verifier::external_type_specification]
#[verifier::reject_recursive_types(Idx)]
pub struct ExRangeTo<Idx>(core::ops::RangeTo<Idx>);

/// Declares `core::ops::RangeToInclusive`, whose one field is public, so
/// that it can select positions.
#[verifier::external_type_specification]
#[verifier::reject_recursive_types(Idx)]
pub struct ExRangeToInclusive<Idx>(core::ops::RangeToInclusive<Idx>);

/// Declares `core::ops::RangeFull`, which has no fields, so that it can
/// select positions.
#[verifier::external_type_specification]
pub struct ExRangeFull(core::ops::RangeFull);

/// Relies on `core::ops::RangeInclusive::into_inner`, which hands back the
/// range's lower and upper (inclusive) bounds.
pub assume_specification<Idx>[ core::ops::RangeInclusive::<Idx>::into_inner ](
    range: core::ops::RangeInclusive<Idx>,
) -> (r: (Idx, Idx))
    ensures
        r == (range@.start, range@.end),
;

/// A selection of positions in a [`SizedVec`]: a range of any of the
/// standard shapes.
pub trait SizedVecIndexOp<S: IndexSize> {
    /// The positions selected in a buffer of `len` items, from the first up
    /// to but not including the last, or `None` where they do not all lie
    /// within the buffer.
    spec fn selection(&self, len: int) -> Option<(int, int)>;

    /// The positions selected in a buffer of `len` items; see
    /// [`SizedVecIndexOp::selection`].
    fn select(self, len: S) -> (r: Option<(usize, usize)>)
        requires
            0 <= len.int_value(),
        ensures
            match r {
                Some((start, end)) => {
                    &&& self.selection(len.int_value()) == Some((start as int, end as int))
                    &&& start <= end <= len.int_value()
                },
                None => self.selection(len.int_value()) is None,
            },
    ;
}

impl<S: IndexSize> SizedVecIndexOp<S> for core::ops::Range<S> {
    open spec fn selection(&self, len: int) -> Option<(int, int)> {
        if 0 <= self.start.int_value() <= self.end.int_value() <= len {
            Some((self.start.int_value(), self.end.int_value()))
        } else {
            None
        }
    }

    fn select(self, len: S) -> (r: Option<(usize, usize)>) {
        proof {
            len.lemma_bounds();
        }
        if !self.start.is_negative() && !self.end.is_negative() && self.start.as_usize()
            <= self.end.as_usize() && self.end.as_usize() <= len.as_usize() {
            Some((self.start.as_usize(), self.end.as_usize()))
        } else {
            None
        }
    }
}

impl<S: IndexSize> SizedVecIndexOp<S> for core::ops::RangeFrom<S> {
    open spec fn selection(&self, len: int) -> Option<(int, int)> {
        if 0 <= self.start.int_value() <= len {
            Some((self.start.int_value(), len))
        } else {
            None
        }
    }

    fn select(self, len: S) -> (r: Option<(usize, usize)>) {
        proof {
            len.lemma_bounds();
        }
        if !self.start.is_negative() && self.start.as_usize() <= len.as_usize() {
            Some((self.start.as_usize(), len.as_usize()))
        } else {
            None
        }
    }
}

impl<S: IndexSize> SizedVecIndexOp<S> for core::ops::RangeTo<S> {
    open spec fn selection(&self, len: int) -> Option<(int, int)> {
        if 0 <= self.end.int_value() <= len {
            Some((0, self.end.int_value()))
        } else {
            None
        }
    }

    fn select(self, len: S) -> (r: Option<(usize, usize)>) {
        proof {
            len.lemma_bounds();
        }
        if !self.end.is_negative() && self.end.as_usize() <= len.as_usize() {
            Some((0, self.end.as_usize()))
        } else {
            None
        }
    }
}

impl<S: IndexSize> SizedVecIndexOp<S> for core::ops::RangeToInclusive<S> {
    open spec fn selection(&self, len: int) -> Option<(int, int)> {
        if 0 <= self.end.int_value() < len {
            Some((0, self.end.int_value() + 1))
        } else {
            None
        }
    }

    fn select(self, len: S) -> (r: Option<(usize, usize)>) {
        proof {
            len.lemma_bounds();
        }
        if !self.end.is_negative() && self.end.as_usize() < len.as_usize() {
            Some((0, self.end.as_usize() + 1))
        } else {
            None
        }
    }
}

impl<S: IndexSize> SizedVecIndexOp<S> for core::ops::RangeInclusive<S> {
    /// The positions from the lower bound up to and including the upper one;
    /// the range is read by its bounds alone.
    open spec fn selection(&self, len: int) -> Option<(int, int)> {
        if 0 <= self@.start.int_value() <= self@.end.int_value() + 1 && 0 <= self@.end.int_value()
            < len {
            Some((self@.start.int_value(), self@.end.int_value() + 1))
        } else {
            None
        }
    }

    fn select(self, len: S) -> (r: Option<(usize, usize)>) {
        proof {
            len.lemma_bounds();
        }
        let (start, end) = self.into_inner();
        if !start.is_negative() && !end.is_negative() && end.as_usize() < len.as_usize()
            && start.as_usize() <= end.as_usize() + 1 {
            Some((start.as_usize(), end.as_usize() + 1))
        } else {
            None
        }
    }
}

impl<S: IndexSize> SizedVecIndexOp<S> for core::ops::RangeFull {
    open spec fn selection(&self, len: int) -> Option<(int, int)> {
        Some((0, len))
    }

    fn select(self, len: S) -> (r: Option<(usize, usize)>) {
        proof {
            len.lemma_bounds();
        }
        Some((0, len.as_usize()))
    }
}

impl<T, S: IndexSize, A: Allocator> View for SizedVec<T, S, A> {
    type V = Seq<T>;

    closed spec fn view(&self) -> Seq<T> {
        self.items@
    }
}

impl<T, S: IndexSize, A: Allocator> SizedVec<T, S, A> {
    /// How many items the buffer can hold without growing.
    pub closed spec fn capacity_spec(&self) -> int {
        self.capacity.int_value()
    }

    /// The buffer's counters are in order: `0 <= len <= capacity`, and the
    /// view holds exactly `len` items.
    pub closed spec fn wf(&self) -> bool {
        &&& self.items@.len() == self.len.int_value()
        &&& 0 <= self.len.int_value() <= self.capacity.int_value()
    }

    /// Every buffer's length and capacity lie between zero and `S::MAX`.
    pub proof fn lemma_bounds(&self)
        requires
            self.wf(),
        ensures
            self@.len() <= self.capacity_spec() <= S::max_spec(),
            S::max_spec() <= usize::MAX,
    {
        self.capacity.lemma_bounds();
    }

    /// The number of bytes that `count` items take, or `None` where that does
    /// not fit in a `usize`.
    fn layout(count: usize) -> (r: Option<MemoryAmount>)
        ensures
            match r {
                Some(amount) => amount@ == count * size_of::<T>() && count * size_of::<T>()
                    <= usize::MAX,
                None => count * size_of::<T>() > usize::MAX,
            },
    {
        let item_size = core::mem::size_of::<T>();
        if item_size == 0 {
            assert(count * size_of::<T>() == 0) by (nonlinear_arith)
                requires
                    size_of::<T>() == 0,
            ;
            Some(MemoryAmount::bytes(0))
        } else if count > usize::MAX / item_size {
            assert(count * item_size > usize::MAX) by (nonlinear_arith)
                requires
                    count > usize::MAX / item_size,
                    item_size > 0,
            ;
            None
        } else {
            assert(count * item_size <= usize::MAX) by (nonlinear_arith)
                requires
                    count <= usize::MAX / item_size,
                    item_size > 0,
            ;
            Some(MemoryAmount::bytes(count * item_size))
        }
    }

    /// An empty buffer that allocates nothing until its first push.
    pub fn with_allocator(allocator: A) -> (r: Self)
        ensures
            r.wf(),
            r@ == Seq::<T>::empty(),
            r.capacity_spec() == 0,
    {
        SizedVec {
            capacity: S::zero(),
            len: S::zero(),
            items: Vec::new(),
            block: ReservedMemory { base_address: 0, amount: MemoryAmount::bytes(0) },
            alloc: allocator,
        }
    }

    /// An empty buffer with room for `num_items` items. Fails if the
    /// allocator does not provide the memory.
    pub fn with_allocator_and_capacity(allocator: A, num_items: S) -> (r: Result<
        Self,
        SizedVecGrowthError,
    >)
        requires
            0 <= num_items.int_value(),
        ensures
            match r {
                Ok(v) => v.wf() && v@ == Seq::<T>::empty() && v.capacity_spec()
                    == num_items.int_value(),
                Err(e) => e == SizedVecGrowthError::ReallocationFailed && num_items.int_value()
                    > 0,
            },
    {
        let mut v = Self::with_allocator(allocator);
        match v.reallocate_with_capacity(num_items) {
            Ok(()) => Ok(v),
            Err(_) => Err(SizedVecGrowthError::ReallocationFailed),
        }
    }

    /// Changes the capacity to `count` items: grows the allocation where
    /// `count` is larger, shrinks it where `count` is smaller but still holds
    /// every item, and does nothing where it is equal. Fails, changing
    /// nothing, with `CannotShrink` where `count` is below the length
    /// (negative counts included), and with `ReallocationFailed` where
    /// `count` items take more bytes than a `usize` counts or the allocator
    /// does not provide the memory.
    pub fn reallocate_with_capacity(&mut self, count: S) -> (r: Result<(), SizedVecReallocError>)
        requires
            old(self).wf(),
        ensures
            final(self).wf(),
            final(self)@ == old(self)@,
            r is Ok ==> final(self).capacity_spec() == count.int_value(),
            r is Err ==> final(self).capacity_spec() == old(self).capacity_spec(),
            r == Err::<(), _>(SizedVecReallocError::CannotShrink) <==> count.int_value() < old(
                self,
            )@.len(),
            count.int_value() == old(self).capacity_spec() ==> r is Ok,
            old(self)@.len() <= count.int_value() && count.int_value() != old(self).capacity_spec()
                && count.int_value() * size_of::<T>() > usize::MAX ==> r == Err::<(), _>(
                SizedVecReallocError::ReallocationFailed,
            ),
    {
        proof {
            self.capacity.lemma_bounds();
            count.lemma_bounds();
        }
        if count.is_negative() {
            return Err(SizedVecReallocError::CannotShrink);
        }
        let current = self.capacity.as_usize();
        let wanted = count.as_usize();
        if current == wanted {
            return Ok(());
        }
        if wanted < self.len.as_usize() {
            return Err(SizedVecReallocError::CannotShrink);
        }
        let amount = match Self::layout(wanted) {
            Some(amount) => amount,
            None => {
                return Err(SizedVecReallocError::ReallocationFailed);
            },
        };
        let outcome = if current == 0 {
            self.alloc.allocate(amount)
        } else if current < wanted {
            self.alloc.grow(self.block, amount)
        } else {
            self.alloc.shrink(self.block, amount)
        };
        match outcome {
            Ok(block) => {
                self.block = block;
                self.capacity = count;
                Ok(())
            },
            Err(_) => Err(SizedVecReallocError::ReallocationFailed),
        }
    }

    /// Tears the buffer down: drops every item and gives the allocation back
    /// to the allocator, which it returns.
    pub fn release(self) -> (r: A)
        requires
            self.wf(),
    {
        let SizedVec { capacity, len: _, items, block, alloc } = self;
        let mut alloc = alloc;
        if !capacity.is_negative() && capacity.as_usize() > 0 {
            alloc.deallocate(block);
        }
        alloc
    }

    /// Makes room for `count` more items than the buffer can hold now
    /// (capacity becomes `capacity + count`). Fails, changing nothing, where
    /// that exceeds `S::MAX` or the allocator does not provide the memory.
    pub fn reserve_additional_capacity(&mut self, count: S) -> (r: Result<(), SizedVecGrowthError>)
        requires
            old(self).wf(),
            0 <= count.int_value(),
        ensures
            final(self).wf(),
            final(self)@ == old(self)@,
            r is Ok ==> final(self).capacity_spec() == old(self).capacity_spec() + count.int_value(),
            r is Err ==> final(self).capacity_spec() == old(self).capacity_spec(),
            r == Err::<(), _>(SizedVecGrowthError::MaxPossibleCapacity) <==> old(self).capacity_spec()
                + count.int_value() > S::max_spec(),
            count.int_value() > 0 && old(self).capacity_spec() + count.int_value() <= S::max_spec()
                && (old(self).capacity_spec() + count.int_value()) * size_of::<T>() > usize::MAX
                ==> r == Err::<(), _>(SizedVecGrowthError::ReallocationFailed),
    {
        proof {
            self.capacity.lemma_bounds();
            count.lemma_bounds();
        }
        let current = self.capacity.as_usize();
        let extra = count.as_usize();
        if extra > S::max_value().as_usize() - current {
            return Err(SizedVecGrowthError::MaxPossibleCapacity);
        }
        match self.reallocate_with_capacity(S::usize_as_self(current + extra)) {
            Ok(()) => Ok(()),
            Err(_) => Err(SizedVecGrowthError::ReallocationFailed),
        }
    }

    /// Makes sure that `count` more items fit without growing: does nothing
    /// where they already fit, and otherwise grows the capacity to exactly
    /// `len + count`. Fails, changing nothing, where that exceeds `S::MAX` or
    /// the allocator does not provide the memory.
    pub fn ensure_additional_capacity(&mut self, count: S) -> (r: Result<(), SizedVecGrowthError>)
        requires
            old(self).wf(),
        ensures
            final(self).wf(),
            final(self)@ == old(self)@,
            old(self)@.len() + count.int_value() <= old(self).capacity_spec() ==> r is Ok
                && final(self).capacity_spec() == old(self).capacity_spec(),
            r is Ok ==> old(self)@.len() + count.int_value() <= final(self).capacity_spec(),
            r is Err ==> final(self).capacity_spec() == old(self).capacity_spec(),
            r == Err::<(), _>(SizedVecGrowthError::MaxPossibleCapacity) <==> old(self)@.len()
                + count.int_value() > S::max_spec(),
            old(self).capacity_spec() < old(self)@.len() + count.int_value() <= S::max_spec() && (
            old(self)@.len() + count.int_value()) * size_of::<T>() > usize::MAX ==> r == Err::<
                (),
                _,
            >(SizedVecGrowthError::ReallocationFailed),
    {
        proof {
            self.capacity.lemma_bounds();
            count.lemma_bounds();
        }
        if count.is_negative() {
            return Ok(());
        }
        let len = self.len.as_usize();
        let extra = count.as_usize();
        if extra <= self.capacity.as_usize() - len {
            return Ok(());
        }
        if extra > S::max_value().as_usize() - len {
            return Err(SizedVecGrowthError::MaxPossibleCapacity);
        }
        match self.reallocate_with_capacity(S::usize_as_self(len + extra)) {
            Ok(()) => Ok(()),
            Err(_) => Err(SizedVecGrowthError::ReallocationFailed),
        }
    }

    /// The capacity that a full buffer of `capacity` items grows to, where
    /// its index type holds at most `max`.
    pub fn growth_target(capacity: usize, max: usize) -> (r: usize)
        requires
            capacity < max,
        ensures
            r == grown_capacity(capacity as int, max as int, size_of::<T>() as nat),
            capacity < r <= max,
    {
        if capacity == 0 {
            let item_size = core::mem::size_of::<T>();
            let base: usize = if item_size == 1 {
                8
            } else if item_size < 1024 {
                4
            } else {
                1
            };
            if base > max {
                max
            } else {
                base
            }
        } else if capacity > max / 2 {
            max
        } else {
            2 * capacity
        }
    }

    /// Appends `item`. A full buffer grows first: an empty one to its base
    /// count, a non-empty one to twice its capacity, saturating at `S::MAX`.
    /// Fails, changing nothing, where a full buffer is already at `S::MAX`
    /// (the index never wraps) or the allocator does not provide the memory.
    pub fn push(&mut self, item: T) -> (r: Result<(), SizedVecGrowthError>)
        requires
            old(self).wf(),
        ensures
            final(self).wf(),
            match r {
                Ok(()) => {
                    &&& final(self)@ == old(self)@.push(item)
                    &&& final(self).capacity_spec() == if old(self)@.len() < old(
                        self,
                    ).capacity_spec() {
                        old(self).capacity_spec()
                    } else {
                        grown_capacity(old(self).capacity_spec(), S::max_spec(), size_of::<T>() as nat)
                    }
                },
                Err(_) => {
                    &&& final(self)@ == old(self)@
                    &&& final(self).capacity_spec() == old(self).capacity_spec()
                },
            },
            old(self)@.len() < old(self).capacity_spec() ==> r is Ok,
            r == Err::<(), _>(SizedVecGrowthError::MaxPossibleCapacity) <==> old(self)@.len()
                == S::max_spec(),
            old(self)@.len() == old(self).capacity_spec() < S::max_spec() && grown_capacity(
                old(self).capacity_spec(),
                S::max_spec(),
                size_of::<T>() as nat,
            ) * size_of::<T>() > usize::MAX ==> r == Err::<(), _>(
                SizedVecGrowthError::ReallocationFailed,
            ),
    {
        proof {
            self.capacity.lemma_bounds();
        }
        let len = self.len.as_usize();
        let capacity = self.capacity.as_usize();
        let max = S::max_value().as_usize();
        if len == capacity {
            if capacity == max {
                return Err(SizedVecGrowthError::MaxPossibleCapacity);
            }
            let target = Self::growth_target(capacity, max);
            if self.reallocate_with_capacity(S::usize_as_self(target)).is_err() {
                return Err(SizedVecGrowthError::ReallocationFailed);
            }
        }
        self.items.push(item);
        self.len = S::usize_as_self(len + 1);
        Ok(())
    }

    /// Whether the buffer holds no items.
    pub fn is_empty(&self) -> (r: bool)
        requires
            self.wf(),
        ensures
            r == (self@.len() == 0),
    {
        proof {
            self.len.lemma_bounds();
        }
        self.len.as_usize() == 0
    }

    /// How many items the buffer holds.
    pub fn len(&self) -> (r: S)
        requires
            self.wf(),
        ensures
            r.int_value() == self@.len(),
    {
        self.len
    }

    /// How many items the buffer can hold without growing.
    pub fn capacity(&self) -> (r: S)
        ensures
            r.int_value() == self.capacity_spec(),
    {
        self.capacity
    }

    /// How many more items fit before the buffer has to grow.
    pub fn remaining_capacity(&self) -> (r: S)
        requires
            self.wf(),
        ensures
            r.int_value() == self.capacity_spec() - self@.len(),
    {
        proof {
            self.capacity.lemma_bounds();
        }
        S::usize_as_self(self.capacity.as_usize() - self.len.as_usize())
    }

    /// The items, in order.
    pub fn as_slice(&self) -> (r: &[T])
        requires
            self.wf(),
        ensures
            r@ == self@,
    {
        self.items.as_slice()
    }

    /// The items, in order, for changing in place.
    pub fn as_slice_mut(&mut self) -> (r: &mut [T])
        requires
            old(self).wf(),
        ensures
            r@ == old(self)@,
            final(self)@ == final(r)@,
            final(self).capacity_spec() == old(self).capacity_spec(),
    {
        self.items.as_mut_slice()
    }

    /// The item at `idx`, which the caller has shown to be below the length.
    pub fn get_unchecked(&self, idx: S) -> (r: &T)
        requires
            self.wf(),
            0 <= idx.int_value() < self@.len(),
        ensures
            *r == self@[idx.int_value()],
    {
        &self.items[idx.as_usize()]
    }

    /// The item at `idx`, or `None` where `idx` is not below the length.
    pub fn get(&self, idx: S) -> (r: Option<&T>)
        requires
            self.wf(),
        ensures
            r == if 0 <= idx.int_value() < self@.len() {
                Some(&self@[idx.int_value()])
            } else {
                None::<&T>
            },
    {
        proof {
            self.len.lemma_bounds();
        }
        if !idx.is_negative() && idx.as_usize() < self.len.as_usize() {
            Some(self.get_unchecked(idx))
        } else {
            None
        }
    }

    /// The item at `idx`, for changing in place, which the caller has shown
    /// to be below the length.
    pub fn get_mut_unchecked(&mut self, idx: S) -> (r: &mut T)
        requires
            old(self).wf(),
            0 <= idx.int_value() < old(self)@.len(),
        ensures
            *r == old(self)@[idx.int_value()],
            final(self)@ == old(self)@.update(idx.int_value(), *final(r)),
            final(self).capacity_spec() == old(self).capacity_spec(),
            final(self).wf(),
    {
        &mut self.items[idx.as_usize()]
    }

    /// The item at `idx`, for changing in place, or `None` where `idx` is not
    /// below the length.
    pub fn get_mut(&mut self, idx: S) -> (r: Option<&mut T>)
        requires
            old(self).wf(),
        ensures
            match r {
                Some(item) => {
                    &&& 0 <= idx.int_value() < old(self)@.len()
                    &&& *item == old(self)@[idx.int_value()]
                    &&& final(self)@ == old(self)@.update(idx.int_value(), *final(item))
                },
                None => {
                    &&& !(0 <= idx.int_value() < old(self)@.len())
                    &&& final(self)@ == old(self)@
                },
            },
            final(self).capacity_spec() == old(self).capacity_spec(),
            final(self).wf(),
    {
        proof {
            self.len.lemma_bounds();
        }
        if !idx.is_negative() && idx.as_usize() < self.len.as_usize() {
            Some(self.get_mut_unchecked(idx))
        } else {
            None
        }
    }

    /// The items that `range` selects, or `None` where they do not all lie
    /// within the buffer.
    pub fn get_range<R: SizedVecIndexOp<S>>(&self, range: R) -> (r: Option<&[T]>)
        requires
            self.wf(),
        ensures
            match r {
                Some(items) => range.selection(self@.len() as int) matches Some((start, end))
                    && items@ == self@.subrange(start, end),
                None => range.selection(self@.len() as int) is None,
            },
    {
        proof {
            self.len.lemma_bounds();
        }
        match range.select(self.len) {
            Some((start, end)) => Some(
                vstd::slice::slice_subrange(self.items.as_slice(), start, end),
            ),
            None => None,
        }
    }

    /// The items that `range` selects, where the caller has shown that they
    /// all lie within the buffer.
    pub fn get_range_unchecked<R: SizedVecIndexOp<S>>(&self, range: R) -> (r: &[T])
        requires
            self.wf(),
            range.selection(self@.len() as int) is Some,
        ensures
            range.selection(self@.len() as int) matches Some((start, end)) && r@ == self@.subrange(
                start,
                end,
            ),
    {
        proof {
            self.len.lemma_bounds();
        }
        match range.select(self.len) {
            Some((start, end)) => vstd::slice::slice_subrange(self.items.as_slice(), start, end),
            None => self.items.as_slice(),
        }
    }

    /// The items that `range` selects, for changing in place, or `None` where
    /// they do not all lie within the buffer.
    pub fn get_range_mut<R: SizedVecIndexOp<S>>(&mut self, range: R) -> (r: Option<&mut [T]>)
        requires
            old(self).wf(),
        ensures
            match r {
                Some(items) => range.selection(old(self)@.len() as int) matches Some((start, end))
                    && items@ == old(self)@.subrange(start, end) && final(self)@ == old(
                    self,
                )@.subrange(0, start) + final(items)@ + old(self)@.subrange(
                    end,
                    old(self)@.len() as int,
                ),
                None => range.selection(old(self)@.len() as int) is None && final(self)@ == old(
                    self,
                )@,
            },
            final(self).capacity_spec() == old(self).capacity_spec(),
    {
        proof {
            self.len.lemma_bounds();
        }
        match range.select(self.len) {
            Some((start, end)) => {
                let (head, _tail) = self.items.as_mut_slice().split_at_mut(end);
                let (_before, middle) = head.split_at_mut(start);
                Some(middle)
            },
            None => None,
        }
    }

    /// The items that `range` selects, for changing in place, where the
    /// caller has shown that they all lie within the buffer.
    pub fn get_range_mut_unchecked<R: SizedVecIndexOp<S>>(&mut self, range: R) -> (r: &mut [T])
        requires
            old(self).wf(),
            range.selection(old(self)@.len() as int) is Some,
        ensures
            range.selection(old(self)@.len() as int) matches Some((start, end)) && r@ == old(
                self,
            )@.subrange(start, end) && final(self)@ == old(self)@.subrange(0, start) + final(r)@
                + old(self)@.subrange(end, old(self)@.len() as int),
            final(self).capacity_spec() == old(self).capacity_spec(),
    {
        proof {
            self.len.lemma_bounds();
        }
        let (start, end) = match range.select(self.len) {
            Some(bounds) => bounds,
            None => (0, 0),
        };
        let (head, _tail) = self.items.as_mut_slice().split_at_mut(end);
        let (_before, middle) = head.split_at_mut(start);
        middle
    }
}

impl<T: Copy, S: IndexSize, A: Allocator> SizedVec<T, S, A> {
    /// Appends a copy of every item of `slice`, where the caller has shown
    /// that they fit without growing.
    pub fn extend_slice_unchecked(&mut self, slice: &[T])
        requires
            old(self).wf(),
            old(self)@.len() + slice@.len() <= old(self).capacity_spec(),
        ensures
            final(self).wf(),
            final(self)@ == old(self)@ + slice@,
            final(self).capacity_spec() == old(self).capacity_spec(),
    {
        proof {
            self.capacity.lemma_bounds();
        }
        let start = self.len.as_usize();
        let mut i: usize = 0;
        while i < slice.len()
            invariant
                0 <= i <= slice@.len(),
                start == old(self)@.len(),
                start + slice@.len() <= self.capacity.int_value() <= S::max_spec(),
                self.items@ == old(self)@ + slice@.subrange(0, i as int),
                self.len == old(self).len,
                self.capacity == old(self).capacity,
            decreases slice@.len() - i,
        {
            self.items.push(slice[i]);
            i = i + 1;
            assert(self.items@ == old(self)@ + slice@.subrange(0, i as int));
        }
        assert(slice@.subrange(0, slice@.len() as int) == slice@);
        self.len = S::usize_as_self(start + slice.len());
    }

    /// Appends a copy of every item of `slice`, growing first where they do
    /// not fit (see [`SizedVec::ensure_additional_capacity`]). Fails, changing
    /// nothing, where growing fails.
    pub fn extend_slice(&mut self, slice: &[T]) -> (r: Result<(), SizedVecGrowthError>)
        requires
            old(self).wf(),
        ensures
            final(self).wf(),
            match r {
                Ok(()) => final(self)@ == old(self)@ + slice@,
                Err(_) => final(self)@ == old(self)@ && final(self).capacity_spec() == old(
                    self,
                ).capacity_spec(),
            },
            old(self)@.len() + slice@.len() <= old(self).capacity_spec() ==> r is Ok,
            r == Err::<(), _>(SizedVecGrowthError::MaxPossibleCapacity) <==> old(self)@.len()
                + slice@.len() > S::max_spec(),
            old(self).capacity_spec() < old(self)@.len() + slice@.len() <= S::max_spec() && (old(
                self,
            )@.len() + slice@.len()) * size_of::<T>() > usize::MAX ==> r == Err::<(), _>(
                SizedVecGrowthError::ReallocationFailed,
            ),
    {
        proof {
            self.capacity.lemma_bounds();
        }
        let len = self.len.as_usize();
        if slice.len() > S::max_value().as_usize() - len {
            return Err(SizedVecGrowthError::MaxPossibleCapacity);
        }
        self.ensure_additional_capacity(S::usize_as_self(slice.len()))?;
        self.extend_slice_unchecked(slice);
        Ok(())
    }
}

impl<T, S: IndexSize> SizedVec<T, S, GlobalAllocator> {
    /// An empty buffer on the heap that allocates nothing until its first
    /// push.
    pub fn new() -> (r: Self)
        ensures
            r.wf(),
            r@ == Seq::<T>::empty(),
            r.capacity_spec() == 0,
    {
        Self::with_allocator(GlobalAllocator)
    }

    /// An empty buffer on the heap with room for `num_items` items.
    pub fn with_capacity(num_items: S) -> (r: Self)
        requires
            0 <= num_items.int_value(),
            num_items.int_value() * size_of::<T>() <= usize::MAX,
        ensures
            r.wf(),
            r@ == Seq::<T>::empty(),
            r.capacity_spec() == num_items.int_value(),
    {
        proof {
            num_items.lemma_bounds();
        }
        let amount = MemoryAmount::bytes(num_items.as_usize() * core::mem::size_of::<T>());
        SizedVec {
            capacity: num_items,
            len: S::zero(),
            items: Vec::new(),
            block: GlobalAllocator.grant(amount),
            alloc: GlobalAllocator,
        }
    }
}

impl<S: IndexSize, A: Allocator> SizedVec<u8, S, A> {
    /// Copies as much of `bytes` as the buffer can take: all of it where it
    /// fits or the buffer can grow to fit it, returning how many bytes that
    /// was; otherwise as many as the current capacity holds, returning the
    /// error that growing gave. Nothing is dropped silently.
    pub fn write_bytes(&mut self, bytes: &[u8]) -> (r: Result<usize, SizedVecGrowthError>)
        requires
            old(self).wf(),
        ensures
            final(self).wf(),
            match r {
                Ok(n) => {
                    &&& n == bytes@.len()
                    &&& final(self)@ == old(self)@ + bytes@
                    &&& final(self).capacity_spec() >= old(self).capacity_spec()
                },
                Err(e) => {
                    &&& final(self)@ == old(self)@ + bytes@.subrange(
                        0,
                        old(self).capacity_spec() - old(self)@.len(),
                    )
                    &&& bytes@.len() > old(self).capacity_spec() - old(self)@.len()
                    &&& final(self).capacity_spec() == old(self).capacity_spec()
                    &&& e == if old(self)@.len() + bytes@.len() > S::max_spec() {
                        SizedVecGrowthError::MaxPossibleCapacity
                    } else {
                        SizedVecGrowthError::ReallocationFailed
                    }
                },
            },
            old(self)@.len() + bytes@.len() <= old(self).capacity_spec() ==> r is Ok,
    {
        proof {
            self.capacity.lemma_bounds();
        }
        let len = self.len.as_usize();
        let room = self.capacity.as_usize() - len;
        let grown = if bytes.len() > S::max_value().as_usize() - len {
            Err(SizedVecGrowthError::MaxPossibleCapacity)
        } else {
            self.ensure_additional_capacity(S::usize_as_self(bytes.len()))
        };
        match grown {
            Ok(()) => {
                self.extend_slice_unchecked(bytes);
                Ok(bytes.len())
            },
            Err(e) => {
                let prefix = vstd::slice::slice_subrange(bytes, 0, room);
                self.extend_slice_unchecked(prefix);
                Err(e)
            },
        }
    }
}

impl<S: IndexSize, A: Allocator> Writer for SizedVec<u8, S, A> {
    type Error = SizedVecGrowthError;

    open spec fn ready(&self) -> bool {
        self.wf()
    }

    /// See [`SizedVec::write_bytes`].
    fn write(&mut self, bytes: &[u8]) -> (r: Result<usize, SizedVecGrowthError>)
        ensures
            final(self).wf(),
            match r {
                Ok(n) => {
                    &&& n == bytes@.len()
                    &&& final(self)@ == old(self)@ + bytes@
                    &&& final(self).capacity_spec() >= old(self).capacity_spec()
                },
                Err(e) => {
                    &&& final(self)@ == old(self)@ + bytes@.subrange(
                        0,
                        old(self).capacity_spec() - old(self)@.len(),
                    )
                    &&& bytes@.len() > old(self).capacity_spec() - old(self)@.len()
                    &&& final(self).capacity_spec() == old(self).capacity_spec()
                    &&& e == if old(self)@.len() + bytes@.len() > S::max_spec() {
                        SizedVecGrowthError::MaxPossibleCapacity
                    } else {
                        SizedVecGrowthError::ReallocationFailed
                    }
                },
            },
            old(self)@.len() + bytes@.len() <= old(self).capacity_spec() ==> r is Ok,
    {
        self.write_bytes(bytes)
    }

    fn flush(&mut self) -> Result<(), SizedVecGrowthError> {
        Ok(())
    }
}

impl<T, S: IndexSize> Default for SizedVec<T, S, GlobalAllocator> {
    /// An empty buffer on the heap.
    fn default() -> (r: Self)
        ensures
            r.wf(),
            r@ == Seq::<T>::empty(),
            r.capacity_spec() == 0,
    {
        Self::new()
    }
}

/// Growing a full buffer of capacity `c > 0` at least doubles its capacity
/// wherever twice `c` fits in the index type, and a successful push keeps
/// every earlier item, in order, before the new one.
pub proof fn lemma_growth_doubles<T>(items: Seq<T>, c: int, max: int, item_size: nat, item: T)
    requires
        0 < c,
        2 * c <= max,
        items.len() == c,
    ensures
        grown_capacity(c, max, item_size) >= 2 * c,
        items.push(item).len() == c + 1,
        forall|i: int| 0 <= i < c ==> #[trigger] items.push(item)[i] == items[i],
{
}

} // verus!
