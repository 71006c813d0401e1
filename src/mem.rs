//! Byte amounts, reserved regions of address space, and the operating
//! system's virtual memory primitives.

use vstd::prelude::*;

verus! {

/// The largest multiple of `unit` bytes that stands for `count` units, or
/// `usize::MAX` where the product does not fit.
pub open spec fn saturating_product(count: nat, unit: nat) -> nat {
    if count * unit > usize::MAX {
        usize::MAX as nat
    } else {
        count * unit
    }
}

/// The smallest multiple of `align` that is at least `x`.
pub open spec fn aligned_up(x: nat, align: nat) -> nat
    recommends
        align > 0,
{
    if x % align == 0 {
        x
    } else {
        (x + (align - x % align)) as nat
    }
}

/// An amount of memory, counted in bytes, with initializers for the usual
/// units.
#[derive(Clone, Copy, PartialEq, Eq, Structural, Debug, Hash)]
pub struct MemoryAmount(usize);

impl View for MemoryAmount {
    type V = nat;

    closed spec fn view(&self) -> nat {
        self.0 as nat
    }
}

/// `amount` units of `unit` bytes, saturating at `usize::MAX`.
fn scaled(amount: usize, unit: usize) -> (r: MemoryAmount)
    requires
        unit > 0,
    ensures
        r@ == saturating_product(amount as nat, unit as nat),
{
    if amount > usize::MAX / unit {
        assert(amount * unit > usize::MAX) by (nonlinear_arith)
            requires
                amount > usize::MAX / unit,
                unit > 0,
        ;
        MemoryAmount(usize::MAX)
    } else {
        assert(amount * unit <= usize::MAX) by (nonlinear_arith)
            requires
                amount <= usize::MAX / unit,
                unit > 0,
        ;
        MemoryAmount(amount * unit)
    }
}

impl MemoryAmount {
    /// Two amounts of the same number of bytes are the same amount.
    pub proof fn lemma_view_injective(self, other: MemoryAmount)
        ensures
            self@ == other@ <==> self == other,
    {
    }

    /// `amount` bytes.
    pub fn bytes(amount: usize) -> (r: MemoryAmount)
        ensures
            r@ == amount,
    {
        MemoryAmount(amount)
    }

    /// `amount` kilobytes (1000 bytes each), saturating at `usize::MAX`.
    pub fn kilobytes(amount: usize) -> (r: MemoryAmount)
        ensures
            r@ == saturating_product(amount as nat, 1000),
    {
        scaled(amount, 1000)
    }

    /// `amount` kibibytes (1024 bytes each), saturating at `usize::MAX`.
    pub fn kibibytes(amount: usize) -> (r: MemoryAmount)
        ensures
            r@ == saturating_product(amount as nat, 1024),
    {
        scaled(amount, 1024)
    }

    /// `amount` megabytes (10^6 bytes each), saturating at `usize::MAX`.
    pub fn megabytes(amount: usize) -> (r: MemoryAmount)
        ensures
            r@ == saturating_product(amount as nat, 1000 * 1000),
    {
        scaled(amount, 1000 * 1000)
    }

    /// `amount` mebibytes (2^20 bytes each), saturating at `usize::MAX`.
    pub fn mebibytes(amount: usize) -> (r: MemoryAmount)
        ensures
            r@ == saturating_product(amount as nat, 1024 * 1024),
    {
        scaled(amount, 1024 * 1024)
    }

    /// `amount` gigabytes (10^9 bytes each), saturating at `usize::MAX`.
    pub fn gigabytes(amount: usize) -> (r: MemoryAmount)
        ensures
            r@ == saturating_product(amount as nat, 1000 * 1000 * 1000),
    {
        scaled(amount, 1000 * 1000 * 1000)
    }

    /// `amount` gibibytes (2^30 bytes each), saturating at `usize::MAX`.
    pub fn gibibytes(amount: usize) -> (r: MemoryAmount)
        ensures
            r@ == saturating_product(amount as nat, 1024 * 1024 * 1024),
    {
        scaled(amount, 1024 * 1024 * 1024)
    }

    /// Rounds this amount up to the next multiple of `align`.
    pub fn align_to(self, align: usize) -> (r: MemoryAmount)
        requires
            align > 0,
            self@ + align - 1 <= usize::MAX,
        ensures
            r@ == aligned_up(self@, align as nat),
            r@ % (align as nat) == 0,
            self@ <= r@ < self@ + align,
    {
        let rem = self.0 % align;
        if rem == 0 {
            self
        } else {
            let r = MemoryAmount(self.0 + (align - rem));
            assert((self.0 + (align - rem)) as nat % (align as nat) == 0) by (nonlinear_arith)
                requires
                    rem == self.0 % align,
                    align > 0,
            ;
            r
        }
    }

    /// Rounds this amount up to a whole number of pages of the machine that
    /// `info` describes.
    pub fn page_align(self, info: &RuntimeInfo) -> (r: MemoryAmount)
        requires
            info.wf(),
            self@ + info.page_size - 1 <= usize::MAX,
        ensures
            r@ == aligned_up(self@, info.page_size as nat),
    {
        self.align_to(page_size(info))
    }

    /// The amount in bytes.
    pub fn amount_bytes(self) -> (r: usize)
        ensures
            r == self@,
    {
        self.0
    }

    /// The sum of two amounts, saturating at `usize::MAX`.
    pub fn saturating_add(self, rhs: MemoryAmount) -> (r: MemoryAmount)
        ensures
            r@ == if self@ + rhs@ > usize::MAX {
                usize::MAX as nat
            } else {
                self@ + rhs@
            },
    {
        MemoryAmount(self.0.saturating_add(rhs.0))
    }

    /// The difference of two amounts, saturating at zero.
    pub fn saturating_sub(self, rhs: MemoryAmount) -> (r: MemoryAmount)
        ensures
            r@ == if self@ < rhs@ {
                0
            } else {
                (self@ - rhs@) as nat
            },
    {
        MemoryAmount(self.0.saturating_sub(rhs.0))
    }

    /// Whether this amount is smaller than `rhs`.
    pub fn is_less_than(self, rhs: MemoryAmount) -> (r: bool)
        ensures
            r == (self@ < rhs@),
    {
        self.0 < rhs.0
    }
}

impl core::ops::Add for MemoryAmount {
    type Output = MemoryAmount;

    /// The sum, saturating at `usize::MAX`.
    fn add(self, rhs: MemoryAmount) -> (r: MemoryAmount)
        ensures
            r@ == if self@ + rhs@ > usize::MAX {
                usize::MAX as nat
            } else {
                self@ + rhs@
            },
    {
        self.saturating_add(rhs)
    }
}

impl core::ops::Sub for MemoryAmount {
    type Output = MemoryAmount;

    /// The difference, saturating at zero.
    fn sub(self, rhs: MemoryAmount) -> (r: MemoryAmount)
        ensures
            r@ == if self@ < rhs@ {
                0
            } else {
                (self@ - rhs@) as nat
            },
    {
        self.saturating_sub(rhs)
    }
}

impl vstd::std_specs::ops::AddSpecImpl for MemoryAmount {
    open spec fn obeys_add_spec() -> bool {
        true
    }

    open spec fn add_req(self, rhs: MemoryAmount) -> bool {
        true
    }

    closed spec fn add_spec(self, rhs: MemoryAmount) -> MemoryAmount {
        MemoryAmount(
            if self.0 + rhs.0 > usize::MAX {
                usize::MAX
            } else {
                (self.0 + rhs.0) as usize
            },
        )
    }
}

impl vstd::std_specs::ops::SubSpecImpl for MemoryAmount {
    open spec fn obeys_sub_spec() -> bool {
        true
    }

    open spec fn sub_req(self, rhs: MemoryAmount) -> bool {
        true
    }

    closed spec fn sub_spec(self, rhs: MemoryAmount) -> MemoryAmount {
        MemoryAmount(
            if self.0 < rhs.0 {
                0
            } else {
                (self.0 - rhs.0) as usize
            },
        )
    }
}

impl vstd::std_specs::ops::MulSpecImpl for MemoryAmount {
    open spec fn obeys_mul_spec() -> bool {
        true
    }

    open spec fn mul_req(self, rhs: MemoryAmount) -> bool {
        true
    }

    closed spec fn mul_spec(self, rhs: MemoryAmount) -> MemoryAmount {
        MemoryAmount(saturating_product(self.0 as nat, rhs.0 as nat) as usize)
    }
}

impl core::ops::Mul for MemoryAmount {
    type Output = MemoryAmount;

    /// The product, saturating at `usize::MAX`.
    fn mul(self, rhs: MemoryAmount) -> (r: MemoryAmount)
        ensures
            r@ == saturating_product(self@, rhs@),
    {
        if rhs.0 == 0 {
            assert(self.0 * rhs.0 == 0) by (nonlinear_arith)
                requires
                    rhs.0 == 0,
            ;
            MemoryAmount(0)
        } else {
            scaled(self.0, rhs.0)
        }
    }
}

impl vstd::std_specs::ops::DivSpecImpl for MemoryAmount {
    open spec fn obeys_div_spec() -> bool {
        true
    }

    open spec fn div_req(self, rhs: MemoryAmount) -> bool {
        rhs@ != 0
    }

    closed spec fn div_spec(self, rhs: MemoryAmount) -> MemoryAmount {
        MemoryAmount(self.0 / rhs.0)
    }
}

impl core::ops::Div for MemoryAmount {
    type Output = MemoryAmount;

    /// How many times `rhs` fits in this amount, rounded down.
    fn div(self, rhs: MemoryAmount) -> (r: MemoryAmount)
        ensures
            r@ == self@ / rhs@,
    {
        MemoryAmount(self.0 / rhs.0)
    }
}

/// A span of address space that has been reserved, but not necessarily
/// committed to physical memory.
///
/// Creating this structure through [`reserve`] guarantees that the span is in
/// fact reserved; creating it by hand is on the caller.
#[derive(Clone, Copy, PartialEq, Eq, Structural, Debug)]
pub struct ReservedMemory {
    /// The address of the first byte of the span.
    pub base_address: usize,
    /// The length of the span.
    pub amount: MemoryAmount,
}

impl ReservedMemory {
    /// The span is non-null and ends within the address space.
    pub open spec fn wf(&self) -> bool {
        &&& self.base_address != 0
        &&& self.base_address + self.amount@ <= usize::MAX
    }

    /// Whether the span is a region: non-null and within the address space.
    pub fn is_region(&self) -> (r: bool)
        ensures
            r == self.wf(),
    {
        self.base_address != 0 && self.base_address <= usize::MAX - self.amount.0
    }

    /// Selects the `len` bytes that start `offset` bytes into this region.
    /// Errors if they do not all lie within it.
    pub fn select(self, offset: MemoryAmount, len: MemoryAmount) -> (r: Result<ReservedMemory, ()>)
        requires
            self.wf(),
        ensures
            r is Ok <==> offset@ + len@ <= self.amount@,
            r matches Ok(sub) ==> sub.wf() && sub.base_address == self.base_address + offset@
                && sub.amount == len,
    {
        if len.0 <= self.amount.0 && offset.0 <= self.amount.0 - len.0 {
            Ok(self.select_unchecked(offset, len))
        } else {
            Err(())
        }
    }

    /// Selects the `len` bytes that start `offset` bytes into this region,
    /// which the caller has shown to lie within it.
    pub fn select_unchecked(self, offset: MemoryAmount, len: MemoryAmount) -> (r: ReservedMemory)
        requires
            self.wf(),
            offset@ + len@ <= self.amount@,
        ensures
            r.wf(),
            r.base_address == self.base_address + offset@,
            r.amount == len,
    {
        ReservedMemory { base_address: self.base_address + offset.0, amount: len }
    }

    /// Everything from `offset` bytes into this region to its end. Errors
    /// unless `offset` lies inside the region.
    pub fn offset(self, offset: MemoryAmount) -> (r: Result<ReservedMemory, ()>)
        requires
            self.wf(),
        ensures
            r is Ok <==> offset@ < self.amount@,
            r matches Ok(tail) ==> tail.wf() && tail.base_address == self.base_address + offset@
                && tail.amount@ == self.amount@ - offset@,
    {
        if offset.0 < self.amount.0 {
            Ok(self.offset_unchecked(offset))
        } else {
            Err(())
        }
    }

    /// Everything from `offset` bytes into this region to its end, where the
    /// caller has shown that `offset` lies inside the region.
    pub fn offset_unchecked(self, offset: MemoryAmount) -> (r: ReservedMemory)
        requires
            self.wf(),
            offset@ < self.amount@,
        ensures
            r.wf(),
            r.base_address == self.base_address + offset@,
            r.amount@ == self.amount@ - offset@,
    {
        ReservedMemory {
            base_address: self.base_address + offset.0,
            amount: MemoryAmount(self.amount.0 - offset.0),
        }
    }
}

/// The operating system's virtual memory primitives, which the rest of the
/// library is built on: reserving address space, committing parts of it to
/// physical memory, and giving both back.
///
/// Addresses that `reserve` hands out must not move until they are released.
pub trait PlatformMemory {
    /// Reserves `amount` bytes of address space without backing them, and
    /// returns the address of the first byte. Errors if the system refuses.
    fn reserve(&mut self, amount: usize) -> Result<usize, ()>;

    /// Backs `amount` reserved bytes from `address` on with physical memory,
    /// making them readable and writable. Errors if the system refuses.
    fn commit(&mut self, address: usize, amount: usize) -> Result<(), ()>;

    /// Takes the physical memory behind `amount` committed bytes from
    /// `address` on away again; they stay reserved.
    fn decommit(&mut self, address: usize, amount: usize);

    /// Gives `amount` reserved bytes from `address` on back to the system.
    fn release(&mut self, address: usize, amount: usize);
}

/// The region of `amount` bytes that starts at `address`, or `Err` where that
/// is no region: the address is null, or the region runs past the end of
/// the address space.
pub fn region_at(address: usize, amount: MemoryAmount) -> (r: Result<ReservedMemory, ()>)
    ensures
        r is Ok <==> (address != 0 && address + amount@ <= usize::MAX),
        r matches Ok(mem) ==> mem.base_address == address && mem.amount == amount && mem.wf(),
{
    if address == 0 || address > usize::MAX - amount.0 {
        Err(())
    } else {
        Ok(ReservedMemory { base_address: address, amount })
    }
}

/// Reserves `amount` bytes of address space, which [`commit`] can later back
/// with physical memory. Errors if the system refuses; otherwise the result
/// is [`region_at`] the address that the system handed out.
pub fn reserve<P: PlatformMemory>(platform: &mut P, amount: MemoryAmount) -> (r: Result<
    ReservedMemory,
    (),
>)
    ensures
        r matches Ok(mem) ==> mem.wf() && mem.amount == amount,
{
    match platform.reserve(amount.0) {
        Ok(address) => region_at(address, amount),
        Err(()) => Err(()),
    }
}

/// Commits the reserved region `mem` to physical memory. Errors if the system
/// refuses.
pub fn commit<P: PlatformMemory>(platform: &mut P, mem: ReservedMemory) -> Result<(), ()>
    requires
        mem.wf(),
{
    platform.commit(mem.base_address, mem.amount.0)
}

/// Takes the physical memory behind the committed region `mem` away; the
/// region stays reserved. Whole pages may be affected.
pub fn uncommit<P: PlatformMemory>(platform: &mut P, mem: ReservedMemory)
    requires
        mem.wf(),
{
    platform.decommit(mem.base_address, mem.amount.0)
}

/// Gives the reserved region `mem` back to the system.
pub fn unreserve<P: PlatformMemory>(platform: &mut P, mem: ReservedMemory)
    requires
        mem.wf(),
{
    platform.release(mem.base_address, mem.amount.0)
}

/// Reserves and commits `amount` bytes in one go, for memory that is used
/// right away. Errors if either step fails; a reservation whose commit failed
/// is given back.
pub fn allocate<P: PlatformMemory>(platform: &mut P, amount: MemoryAmount) -> (r: Result<
    ReservedMemory,
    (),
>)
    ensures
        r matches Ok(mem) ==> mem.wf() && mem.amount == amount,
{
    let mem = reserve(platform, amount)?;
    match commit(platform, mem) {
        Ok(()) => Ok(mem),
        Err(()) => {
            unreserve(platform, mem);
            Err(())
        },
    }
}

/// Gives memory obtained from [`allocate`] back to the system.
pub fn free<P: PlatformMemory>(platform: &mut P, mem: ReservedMemory)
    requires
        mem.wf(),
{
    unreserve(platform, mem)
}

/// Operating systems the library knows of.
#[derive(PartialEq, Eq, Structural, Hash, Clone, Copy, Debug)]
pub enum Os {
    Linux,
    MacOs,
    Windows,
    UnknownUnix,
}

/// What the library needs to know of the machine, queried once when the
/// program starts.
pub struct RuntimeInfo {
    /// The operating system the program runs on.
    pub os: Os,
    /// The size of a page of memory on the current machine.
    pub page_size: usize,
}

impl RuntimeInfo {
    /// The page size is known.
    pub open spec fn wf(&self) -> bool {
        self.page_size > 0
    }
}

/// The size of a single page of memory on the machine that `info` describes.
pub fn page_size(info: &RuntimeInfo) -> (r: usize)
    ensures
        r == info.page_size,
{
    info.page_size
}

} // verus!
