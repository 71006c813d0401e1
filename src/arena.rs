//! A bump allocator over one reservation of address space, which commits
//! memory as it goes and can rewind to a checkpoint.

use vstd::prelude::*;

use crate::allocator::{AllocError, Allocator};
use crate::mem::{commit, reserve, uncommit, unreserve, MemoryAmount, PlatformMemory, ReservedMemory};

verus! {

/// How much of an arena was in use at some moment; the arena can later rewind
/// to it.
#[derive(Clone, Copy, PartialEq, Eq, Structural, Debug, Hash)]
pub struct ArenaCheckpoint(MemoryAmount);

impl View for ArenaCheckpoint {
    type V = nat;

    closed spec fn view(&self) -> nat {
        self.0@
    }
}

impl ArenaCheckpoint {
    /// The amount of memory that was in use in the arena when this checkpoint
    /// was taken.
    pub fn amount(self) -> (r: MemoryAmount)
        ensures
            r@ == self@,
    {
        self.0
    }
}

/// Which stage of setting up a preallocated arena failed.
#[derive(Clone, Copy, PartialEq, Eq, Structural, Debug)]
pub enum ArenaPreallocationError {
    /// Reserving virtual memory failed.
    Reserve,
    /// Committing the preallocated part of the reservation failed.
    Commit,
    /// More memory was to be preallocated than reserved.
    PreallocatedMemoryTooLarge,
}

/// The state of an arena: its reservation, how much of it is committed (a
/// prefix), how much of that has ever been handed out (a shorter prefix, the
/// rest still reads as zero), and how much is handed out now (shorter still).
pub struct ArenaView {
    pub reserved: ReservedMemory,
    pub committed: nat,
    pub touched: nat,
    pub used: nat,
}

impl ArenaView {
    /// The counters are in order and the reservation is well formed.
    pub open spec fn wf(self) -> bool {
        &&& self.reserved.wf()
        &&& self.used <= self.touched
        &&& self.touched <= self.committed
        &&& self.committed <= self.reserved.amount@
    }

    /// The address that the next allocation starts at.
    pub open spec fn next_address(self) -> int {
        self.reserved.base_address + self.used
    }

    /// `size` more bytes can be handed out without committing any.
    pub open spec fn fits_committed(self, size: nat) -> bool {
        self.used + size <= self.committed
    }

    /// `size` more bytes lie within the reservation.
    pub open spec fn fits_reserved(self, size: nat) -> bool {
        self.used + size <= self.reserved.amount@
    }

    /// How many bytes must be committed before `size` more can be handed out:
    /// exactly what is missing, never more.
    pub open spec fn shortfall(self, size: nat) -> nat {
        if self.fits_committed(size) {
            0
        } else {
            (self.used + size - self.committed) as nat
        }
    }

    /// No byte after `used` has been handed out before: they all still read
    /// as zero.
    pub open spec fn untouched_tail(self) -> bool {
        self.touched == self.used
    }

    /// The state after `size` more bytes were handed out.
    pub open spec fn after_allocation(self, size: nat) -> ArenaView {
        ArenaView {
            reserved: self.reserved,
            committed: self.committed + self.shortfall(size),
            touched: if self.touched < self.used + size {
                self.used + size
            } else {
                self.touched
            },
            used: self.used + size,
        }
    }

    /// The state after rewinding to a checkpoint taken at `mark` bytes used.
    pub open spec fn restored(self, mark: nat) -> ArenaView {
        ArenaView {
            reserved: self.reserved,
            committed: self.committed,
            touched: if self.touched < mark {
                mark
            } else {
                self.touched
            },
            used: mark,
        }
    }
}

/// `parent` and `child` are what splitting `amount` bytes off `old`
/// leaves.
pub open spec fn split_parts(old: ArenaView, amount: nat, parent: ArenaView, child: ArenaView) -> bool {
    let point = (old.reserved.amount@ - amount) as nat;
    let kept = if old.committed <= point { old.committed } else { point };
    let kept_touched = if old.touched <= point { old.touched } else { point };
    &&& parent.reserved.base_address == old.reserved.base_address
    &&& parent.reserved.amount@ == point
    &&& parent.committed == kept
    &&& parent.touched == kept_touched
    &&& parent.used == old.used
    &&& child.reserved.base_address == old.reserved.base_address + point
    &&& child.reserved.amount@ == amount
    &&& child.committed == old.committed - kept
    &&& child.touched == old.touched - kept_touched
    &&& child.used == 0
}

/// A bump allocator over a reservation of virtual memory. It commits memory
/// only as allocations need it, and what it hands out never moves.
///
/// Individual allocations are never reclaimed; rewinding to a checkpoint
/// makes everything allocated after it available again.
pub struct VirtualMemoryArena<P: PlatformMemory> {
    counters: ArenaCounters,
    platform: P,
}

/// The counters of an arena, kept in order at all times.
struct ArenaCounters {
    reserved: ReservedMemory,
    committed: MemoryAmount,
    touched: MemoryAmount,
    used: MemoryAmount,
}

impl ArenaCounters {
    #[verifier::type_invariant]
    spec fn in_order(&self) -> bool {
        ArenaView {
            reserved: self.reserved,
            committed: self.committed@,
            touched: self.touched@,
            used: self.used@,
        }.wf()
    }
}

impl<P: PlatformMemory> View for VirtualMemoryArena<P> {
    type V = ArenaView;

    closed spec fn view(&self) -> ArenaView {
        ArenaView {
            reserved: self.counters.reserved,
            committed: self.counters.committed@,
            touched: self.counters.touched@,
            used: self.counters.used@,
        }
    }
}

impl<P: PlatformMemory> VirtualMemoryArena<P> {
    /// The arena's counters are in order: `used <= touched <= committed <=
    /// reserved`.
    /// This holds of every arena.
    pub open spec fn wf(&self) -> bool {
        self@.wf()
    }

    /// Reserves `to_reserve` bytes for a new arena, committing none. Fails if
    /// the reservation fails.
    pub fn new(platform: P, to_reserve: MemoryAmount) -> (r: Result<Self, ()>)
        ensures
            r matches Ok(arena) ==> arena.wf() && arena@.reserved.amount == to_reserve
                && arena@.committed == 0 && arena@.used == 0,
    {
        let mut platform = platform;
        let reserved = reserve(&mut platform, to_reserve)?;
        Ok(VirtualMemoryArena {
            counters: ArenaCounters {
                reserved,
                committed: MemoryAmount::bytes(0),
                touched: MemoryAmount::bytes(0),
                used: MemoryAmount::bytes(0),
            },
            platform,
        })
    }

    /// Reserves `to_reserve` bytes for a new arena and commits the first
    /// `to_commit` of them. Each failure names the stage that failed; a
    /// reservation whose commit failed is given back.
    pub fn new_preallocate(platform: P, to_reserve: MemoryAmount, to_commit: MemoryAmount) -> (r:
        Result<Self, ArenaPreallocationError>)
        ensures
            to_commit@ > to_reserve@ <==> r == Err::<Self, _>(
                ArenaPreallocationError::PreallocatedMemoryTooLarge,
            ),
            r matches Ok(arena) ==> arena.wf() && arena@.reserved.amount == to_reserve
                && arena@.committed == to_commit@ && arena@.used == 0,
    {
        if to_reserve.is_less_than(to_commit) {
            return Err(ArenaPreallocationError::PreallocatedMemoryTooLarge);
        }
        let mut platform = platform;
        let reserved = match reserve(&mut platform, to_reserve) {
            Ok(reserved) => reserved,
            Err(()) => {
                return Err(ArenaPreallocationError::Reserve);
            },
        };
        let prefix = reserved.select_unchecked(MemoryAmount::bytes(0), to_commit);
        match commit(&mut platform, prefix) {
            Ok(()) => Ok(VirtualMemoryArena {
                counters: ArenaCounters {
                    reserved,
                    committed: to_commit,
                    touched: MemoryAmount::bytes(0),
                    used: MemoryAmount::bytes(0),
                },
                platform,
            }),
            Err(()) => {
                unreserve(&mut platform, reserved);
                Err(ArenaPreallocationError::Commit)
            },
        }
    }

    /// Records how much of the arena is in use now.
    pub fn checkpoint(&self) -> (r: ArenaCheckpoint)
        ensures
            r@ == self@.used,
    {
        proof {
            use_type_invariant(&self.counters);
        }
        ArenaCheckpoint(self.counters.used)
    }

    /// Rewinds the arena to `checkpoint`, so that everything allocated after
    /// it is handed out again by later allocations.
    ///
    /// The caller must make sure that nothing allocated after the checkpoint
    /// is still referred to or awaits being dropped: later allocations will
    /// overwrite it.
    pub fn restore_checkpoint(&mut self, checkpoint: ArenaCheckpoint)
        requires
            checkpoint@ <= old(self)@.committed,
        ensures
            final(self).wf(),
            final(self)@ == old(self)@.restored(checkpoint@),
    {
        proof {
            use_type_invariant(&self.counters);
        }
        if self.counters.touched.amount_bytes() < checkpoint.0.amount_bytes() {
            self.counters.touched = checkpoint.0;
        }
        self.counters.used = checkpoint.0;
    }

    /// Hands out the next `size` bytes, first committing exactly the bytes
    /// that the committed part lacks (the span from `committed` to
    /// `used + size`). Fails, changing nothing, if the reservation is too
    /// short or the platform refuses that commit; see
    /// [`VirtualMemoryArena::complete_allocation`] for the outcome in each
    /// case.
    pub fn allocate(&mut self, size: MemoryAmount) -> (r: Result<ReservedMemory, AllocError>)
        ensures
            final(self).wf(),
            match r {
                Ok(block) => {
                    &&& final(self)@ == old(self)@.after_allocation(size@)
                    &&& block.wf()
                    &&& block.base_address == old(self)@.next_address()
                    &&& block.amount == size
                },
                Err(_) => final(self)@ == old(self)@,
            },
            old(self)@.fits_committed(size@) ==> r is Ok,
            !old(self)@.fits_reserved(size@) ==> r is Err,
    {
        proof {
            use_type_invariant(&self.counters);
        }
        let used = self.counters.used.amount_bytes();
        let committed = self.counters.committed.amount_bytes();
        if size.amount_bytes() > self.counters.reserved.amount.amount_bytes() - used {
            return Err(AllocError);
        }
        let granted = if committed - used < size.amount_bytes() {
            let shortfall = MemoryAmount::bytes(used + size.amount_bytes() - committed);
            let to_commit = self.counters.reserved.select_unchecked(self.counters.committed, shortfall);
            commit(&mut self.platform, to_commit).is_ok()
        } else {
            true
        };
        self.complete_allocation(size, granted)
    }

    /// The bookkeeping half of [`VirtualMemoryArena::allocate`], for a
    /// request that lies within the reservation. `commit_granted` says
    /// whether the platform committed the shortfall (the span from
    /// `committed` to `used + size`); it matters only where there is one.
    /// The allocation succeeds exactly where no commit was needed or the
    /// commit was granted.
    pub fn complete_allocation(&mut self, size: MemoryAmount, commit_granted: bool) -> (r: Result<
        ReservedMemory,
        AllocError,
    >)
        requires
            old(self)@.fits_reserved(size@),
        ensures
            final(self).wf(),
            r is Ok <==> (old(self)@.fits_committed(size@) || commit_granted),
            match r {
                Ok(block) => {
                    &&& final(self)@ == old(self)@.after_allocation(size@)
                    &&& block.wf()
                    &&& block.base_address == old(self)@.next_address()
                    &&& block.amount == size
                },
                Err(_) => final(self)@ == old(self)@,
            },
    {
        proof {
            use_type_invariant(&self.counters);
        }
        let end = self.counters.used.amount_bytes() + size.amount_bytes();
        if self.counters.committed.amount_bytes() < end {
            if !commit_granted {
                return Err(AllocError);
            }
            self.counters.committed = MemoryAmount::bytes(end);
        }
        let block = self.counters.reserved.select_unchecked(self.counters.used, size);
        if self.counters.touched.amount_bytes() < end {
            self.counters.touched = MemoryAmount::bytes(end);
        }
        self.counters.used = MemoryAmount::bytes(end);
        Ok(block)
    }

    /// Hands out the next `size` bytes as [`VirtualMemoryArena::allocate`]
    /// does, where they all still read as zero: committed pages start out
    /// zeroed (anonymous mappings on Unix, `VirtualAlloc` on Windows), and
    /// nothing after `used` has been handed out before. After a rewind the
    /// bytes may hold what was written there, so the request fails, changing
    /// nothing.
    pub fn allocate_zeroed(&mut self, size: MemoryAmount) -> (r: Result<ReservedMemory, AllocError>)
        ensures
            final(self).wf(),
            match r {
                Ok(block) => {
                    &&& old(self)@.untouched_tail()
                    &&& final(self)@ == old(self)@.after_allocation(size@)
                    &&& block.wf()
                    &&& block.base_address == old(self)@.next_address()
                    &&& block.amount == size
                },
                Err(_) => final(self)@ == old(self)@,
            },
            old(self)@.untouched_tail() && old(self)@.fits_committed(size@) ==> r is Ok,
    {
        proof {
            use_type_invariant(&self.counters);
        }
        if self.counters.used.amount_bytes() < self.counters.touched.amount_bytes() {
            return Err(AllocError);
        }
        self.allocate(size)
    }

    /// `block` is the most recent allocation: it ends where the next one
    /// would start.
    pub open spec fn is_last_block(&self, block: ReservedMemory) -> bool {
        &&& block.amount@ <= self@.used
        &&& block.base_address + block.amount@ == self@.next_address()
    }

    /// Lengthens `block` to `new_amount` bytes. The most recent allocation
    /// grows in place, by allocating just the bytes after it; any other block
    /// is replaced by a fresh allocation. Fails, changing nothing, where
    /// [`VirtualMemoryArena::allocate`] would.
    pub fn grow(&mut self, block: ReservedMemory, new_amount: MemoryAmount) -> (r: Result<
        ReservedMemory,
        AllocError,
    >)
        requires
            block.amount@ <= new_amount@,
        ensures
            final(self).wf(),
            match r {
                Ok(grown) => {
                    &&& grown.amount == new_amount
                    &&& if old(self).is_last_block(block) {
                        &&& grown.base_address == block.base_address
                        &&& final(self)@ == old(self)@.after_allocation(
                            (new_amount@ - block.amount@) as nat,
                        )
                    } else {
                        &&& grown.base_address == old(self)@.next_address()
                        &&& final(self)@ == old(self)@.after_allocation(new_amount@)
                    }
                },
                Err(_) => final(self)@ == old(self)@,
            },
    {
        proof {
            use_type_invariant(&self.counters);
        }
        let end = self.counters.reserved.base_address as u128 + self.counters.used.amount_bytes() as u128;
        if block.amount.amount_bytes() <= self.counters.used.amount_bytes() && block.base_address as u128
            + block.amount.amount_bytes() as u128 == end {
            let extra = MemoryAmount::bytes(
                new_amount.amount_bytes() - block.amount.amount_bytes(),
            );
            match self.allocate(extra) {
                Ok(_) => Ok(ReservedMemory { base_address: block.base_address, amount: new_amount }),
                Err(e) => Err(e),
            }
        } else {
            self.allocate(new_amount)
        }
    }

    /// Shortens `block` to its first `new_amount` bytes. The bytes after them
    /// are not reclaimed.
    pub fn shrink(&self, block: ReservedMemory, new_amount: MemoryAmount) -> (r: ReservedMemory)
        requires
            new_amount@ <= block.amount@,
        ensures
            r.base_address == block.base_address,
            r.amount == new_amount,
    {
        ReservedMemory { base_address: block.base_address, amount: new_amount }
    }

    /// Carves a new arena out of the last `amount` bytes of the unused part of
    /// the reservation. This arena keeps everything before that point and
    /// goes on allocating there; committed bytes that fall into the carved
    /// part go with it. Fails, changing nothing, if fewer than `amount`
    /// bytes are unused.
    pub fn split(&mut self, amount: MemoryAmount) -> (r: Result<Self, ()>)
        where P: Clone
        ensures
            final(self).wf(),
            r is Ok <==> amount@ <= old(self)@.reserved.amount@ - old(self)@.used,
            r is Err ==> final(self)@ == old(self)@,
            r matches Ok(child) ==> child.wf() && split_parts(old(self)@, amount@, final(self)@, child@),
    {
        proof {
            use_type_invariant(&self.counters);
        }
        if amount.amount_bytes() <= self.counters.reserved.amount.amount_bytes() - self.counters.used.amount_bytes() {
            Ok(self.split_unchecked(amount))
        } else {
            Err(())
        }
    }

    /// [`VirtualMemoryArena::split`], where the caller has shown that at
    /// least `amount` bytes are unused.
    pub fn split_unchecked(&mut self, amount: MemoryAmount) -> (r: Self)
        where P: Clone
        requires
            amount@ <= old(self)@.reserved.amount@ - old(self)@.used,
        ensures
            final(self).wf(),
            r.wf(),
            split_parts(old(self)@, amount@, final(self)@, r@),
    {
        proof {
            use_type_invariant(&self.counters);
        }
        let point = MemoryAmount::bytes(self.counters.reserved.amount.amount_bytes() - amount.amount_bytes());
        let kept = if self.counters.committed.amount_bytes() <= point.amount_bytes() {
            self.counters.committed
        } else {
            point
        };
        let kept_touched = if self.counters.touched.amount_bytes() <= point.amount_bytes() {
            self.counters.touched
        } else {
            point
        };
        let child = VirtualMemoryArena {
            counters: ArenaCounters {
                reserved: self.counters.reserved.select_unchecked(point, amount),
                committed: MemoryAmount::bytes(
                    self.counters.committed.amount_bytes() - kept.amount_bytes(),
                ),
                touched: MemoryAmount::bytes(
                    self.counters.touched.amount_bytes() - kept_touched.amount_bytes(),
                ),
                used: MemoryAmount::bytes(0),
            },
            platform: self.platform.clone(),
        };
        self.counters.touched = kept_touched;
        self.counters.committed = kept;
        self.counters.reserved = self.counters.reserved.select_unchecked(MemoryAmount::bytes(0), point);
        child
    }

    /// The memory this arena can still hand out, committed or not.
    pub fn available_total_memory(&self) -> (r: MemoryAmount)
        ensures
            r@ == self@.reserved.amount@ - self@.used,
    {
        proof {
            use_type_invariant(&self.counters);
        }
        MemoryAmount::bytes(self.counters.reserved.amount.amount_bytes() - self.counters.used.amount_bytes())
    }

    /// The memory this arena has reserved but not committed.
    pub fn available_reserved_memory(&self) -> (r: MemoryAmount)
        ensures
            r@ == self@.reserved.amount@ - self@.committed,
    {
        proof {
            use_type_invariant(&self.counters);
        }
        MemoryAmount::bytes(self.counters.reserved.amount.amount_bytes() - self.counters.committed.amount_bytes())
    }

    /// The committed memory this arena has not handed out yet.
    pub fn available_committed_memory(&self) -> (r: MemoryAmount)
        ensures
            r@ == self@.committed - self@.used,
    {
        proof {
            use_type_invariant(&self.counters);
        }
        MemoryAmount::bytes(self.counters.committed.amount_bytes() - self.counters.used.amount_bytes())
    }

    /// Takes the physical memory behind the committed part away, then gives
    /// the whole reservation back.
    pub fn release(self) {
        proof {
            use_type_invariant(&self.counters);
        }
        let mut arena = self;
        let committed = arena.counters.reserved.select_unchecked(MemoryAmount::bytes(0), arena.counters.committed);
        uncommit(&mut arena.platform, committed);
        unreserve(&mut arena.platform, arena.counters.reserved);
    }
}

impl<P: PlatformMemory> Allocator for VirtualMemoryArena<P> {
    fn allocate(&mut self, amount: MemoryAmount) -> Result<ReservedMemory, AllocError> {
        VirtualMemoryArena::allocate(self, amount)
    }

    fn allocate_zeroed(&mut self, amount: MemoryAmount) -> Result<ReservedMemory, AllocError> {
        VirtualMemoryArena::allocate_zeroed(self, amount)
    }

    fn grow(&mut self, block: ReservedMemory, new_amount: MemoryAmount) -> Result<
        ReservedMemory,
        AllocError,
    > {
        if block.amount.amount_bytes() <= new_amount.amount_bytes() {
            VirtualMemoryArena::grow(self, block, new_amount)
        } else {
            Err(AllocError)
        }
    }

    fn shrink(&mut self, block: ReservedMemory, new_amount: MemoryAmount) -> Result<
        ReservedMemory,
        AllocError,
    > {
        if new_amount.amount_bytes() <= block.amount.amount_bytes() {
            Ok(VirtualMemoryArena::shrink(self, block, new_amount))
        } else {
            Err(AllocError)
        }
    }

    fn deallocate(&mut self, block: ReservedMemory) {
    }
}

/// On a fresh arena, the commit that an allocation of `n` bytes asks for,
/// with `n` no more than the reservation, is exactly its first `n` bytes: it
/// lies within the reservation, so the arena never refuses it, and once it is
/// done at least `n` bytes are committed.
pub proof fn lemma_fresh_arena_allocation(s: ArenaView, n: nat)
    requires
        s.wf(),
        s.committed == 0,
        s.used == 0,
        n <= s.reserved.amount@,
    ensures
        s.fits_reserved(n),
        s.shortfall(n) == n,
        s.after_allocation(n).wf(),
        s.after_allocation(n).committed >= n,
        s.after_allocation(n).used == n,
{
}

/// Taking a checkpoint, allocating `x` bytes, rewinding and allocating `x`
/// bytes again starts both allocations at the same address. The second one
/// needs no commit, so it cannot fail, and it leaves the arena as the first
/// one did.
pub proof fn lemma_checkpoint_round_trip(s: ArenaView, x: nat)
    requires
        s.wf(),
        s.fits_reserved(x),
    ensures
        ({
            let first = s.after_allocation(x);
            let rewound = first.restored(s.used);
            &&& first.wf()
            &&& s.used <= first.committed
            &&& rewound.wf()
            &&& rewound.next_address() == s.next_address()
            &&& rewound.fits_committed(x)
            &&& rewound.after_allocation(x) == first
        }),
{
}

/// Splitting partitions the reservation: the parent's span ends where the
/// child's begins, the two together cover the old span, and every byte that
/// was handed out before stays with the parent.
pub proof fn lemma_split_partitions(old: ArenaView, amount: nat, parent: ArenaView, child: ArenaView)
    requires
        old.wf(),
        amount <= old.reserved.amount@ - old.used,
        split_parts(old, amount, parent, child),
    ensures
        parent.reserved.base_address + parent.reserved.amount@ == child.reserved.base_address,
        child.reserved.base_address + child.reserved.amount@ == old.reserved.base_address
            + old.reserved.amount@,
        parent.used == old.used,
        parent.used <= parent.reserved.amount@,
        parent.committed + child.committed == old.committed,
{
}

} // verus!
