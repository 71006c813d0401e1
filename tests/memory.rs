use crux::allocator::{AllocError, Allocator, OsAllocator};
use crux::arena::{ArenaPreallocationError, VirtualMemoryArena};
use crux::win32::{AllocationType, FreeType, MemoryProtection};
use crux::mem::{page_size, region_at, reserve, MemoryAmount, Os, PlatformMemory, ReservedMemory, RuntimeInfo};

/// Hands out addresses from a counter and commits whatever it is asked to,
/// up to an optional limit of committed bytes.
struct Simulated {
    next_address: usize,
    committed: usize,
    commit_limit: usize,
    commits: Vec<(usize, usize)>,
    released: Vec<(usize, usize)>,
}

impl Simulated {
    fn new() -> Self {
        Simulated {
            next_address: 0x10_0000,
            committed: 0,
            commit_limit: usize::MAX,
            commits: Vec::new(),
            released: Vec::new(),
        }
    }

    fn with_commit_limit(limit: usize) -> Self {
        Simulated { commit_limit: limit, ..Simulated::new() }
    }
}

impl PlatformMemory for Simulated {
    fn reserve(&mut self, amount: usize) -> Result<usize, ()> {
        let address = self.next_address;
        self.next_address += amount + 0x1000;
        Ok(address)
    }

    fn commit(&mut self, address: usize, amount: usize) -> Result<(), ()> {
        if self.committed + amount > self.commit_limit {
            return Err(());
        }
        self.committed += amount;
        self.commits.push((address, amount));
        Ok(())
    }

    fn decommit(&mut self, _address: usize, amount: usize) {
        self.committed -= amount.min(self.committed);
    }

    fn release(&mut self, address: usize, amount: usize) {
        self.released.push((address, amount));
    }
}

/// Refuses every reservation.
#[derive(Clone)]
struct Exhausted;

impl PlatformMemory for Exhausted {
    fn reserve(&mut self, _amount: usize) -> Result<usize, ()> {
        Err(())
    }

    fn commit(&mut self, _address: usize, _amount: usize) -> Result<(), ()> {
        Err(())
    }

    fn decommit(&mut self, _address: usize, _amount: usize) {}

    fn release(&mut self, _address: usize, _amount: usize) {}
}

impl Clone for Simulated {
    fn clone(&self) -> Self {
        Simulated::new()
    }
}

#[test]
fn memory_amount_units() {
    assert_eq!(MemoryAmount::bytes(7).amount_bytes(), 7);
    assert_eq!(MemoryAmount::kilobytes(2).amount_bytes(), 2000);
    assert_eq!(MemoryAmount::kibibytes(1).amount_bytes(), 1024);
    assert_eq!(MemoryAmount::megabytes(3).amount_bytes(), 3_000_000);
    assert_eq!(MemoryAmount::mebibytes(1).amount_bytes(), 1_048_576);
    assert_eq!(MemoryAmount::gigabytes(1).amount_bytes(), 1_000_000_000);
    assert_eq!(MemoryAmount::gibibytes(2).amount_bytes(), 2_147_483_648);
    // Units saturate instead of wrapping.
    assert_eq!(MemoryAmount::kibibytes(usize::MAX).amount_bytes(), usize::MAX);
    assert_eq!(MemoryAmount::gibibytes(usize::MAX / 2).amount_bytes(), usize::MAX);
}

#[test]
fn memory_amount_arithmetic_saturates() {
    let a = MemoryAmount::bytes(10);
    let b = MemoryAmount::bytes(25);
    assert_eq!(a.saturating_add(b).amount_bytes(), 35);
    assert_eq!(b.saturating_sub(a).amount_bytes(), 15);
    assert_eq!(a.saturating_sub(b).amount_bytes(), 0);
    assert_eq!(MemoryAmount::bytes(usize::MAX).saturating_add(a).amount_bytes(), usize::MAX);
    assert_eq!((a + b).amount_bytes(), 35);
    assert_eq!((b - a).amount_bytes(), 15);
    assert_eq!((a - b).amount_bytes(), 0);
    assert_eq!((a * b).amount_bytes(), 250);
    assert_eq!((MemoryAmount::bytes(usize::MAX) * b).amount_bytes(), usize::MAX);
    assert_eq!((b / a).amount_bytes(), 2);
    assert!(a.is_less_than(b));
    assert!(!b.is_less_than(a));
}

#[test]
fn memory_amount_alignment() {
    assert_eq!(MemoryAmount::bytes(0).align_to(8).amount_bytes(), 0);
    assert_eq!(MemoryAmount::bytes(1).align_to(8).amount_bytes(), 8);
    assert_eq!(MemoryAmount::bytes(8).align_to(8).amount_bytes(), 8);
    assert_eq!(MemoryAmount::bytes(13).align_to(5).amount_bytes(), 15);
    let info = RuntimeInfo { os: Os::Linux, page_size: 4096 };
    assert_eq!(page_size(&info), 4096);
    assert_eq!(MemoryAmount::bytes(5000).page_align(&info).amount_bytes(), 8192);
    assert_eq!(MemoryAmount::bytes(4096).page_align(&info).amount_bytes(), 4096);
}

#[test]
fn region_selection() {
    let region = ReservedMemory { base_address: 0x1000, amount: MemoryAmount::bytes(100) };
    let sub = region.select(MemoryAmount::bytes(10), MemoryAmount::bytes(90)).unwrap();
    assert_eq!(sub.base_address, 0x100a);
    assert_eq!(sub.amount, MemoryAmount::bytes(90));
    let empty = region.select(MemoryAmount::bytes(0), MemoryAmount::bytes(0)).unwrap();
    assert_eq!(empty.base_address, 0x1000);
    assert_eq!(empty.amount.amount_bytes(), 0);
    assert!(region.select(MemoryAmount::bytes(10), MemoryAmount::bytes(91)).is_err());
    assert!(region.select(MemoryAmount::bytes(usize::MAX), MemoryAmount::bytes(2)).is_err());
    let tail = region.offset(MemoryAmount::bytes(40)).unwrap();
    assert_eq!(tail.base_address, 0x1028);
    assert_eq!(tail.amount.amount_bytes(), 60);
    assert!(region.offset(MemoryAmount::bytes(100)).is_err());
}

#[test]
fn regions_at_addresses() {
    let region = region_at(0x4000, MemoryAmount::bytes(16)).unwrap();
    assert_eq!(region.base_address, 0x4000);
    assert_eq!(region.amount.amount_bytes(), 16);
    assert!(region_at(0, MemoryAmount::bytes(16)).is_err());
    assert!(region_at(usize::MAX - 8, MemoryAmount::bytes(16)).is_err());
    assert!(region_at(usize::MAX - 16, MemoryAmount::bytes(16)).is_ok());
    assert!(region.is_region());
    assert_eq!(MemoryAmount::bytes(region.amount.amount_bytes()), region.amount);
}

#[test]
fn allocation_completes_as_the_commit_went() {
    let mut arena = VirtualMemoryArena::new(Simulated::new(), MemoryAmount::kibibytes(1)).unwrap();
    assert_eq!(arena.complete_allocation(MemoryAmount::bytes(100), false), Err(AllocError));
    assert_eq!(arena.available_committed_memory().amount_bytes(), 0);
    assert_eq!(arena.available_total_memory().amount_bytes(), 1024);
    let block = arena.complete_allocation(MemoryAmount::bytes(100), true).unwrap();
    assert_eq!(block.base_address, 0x10_0000);
    assert_eq!(arena.available_reserved_memory().amount_bytes(), 924);
    arena.restore_checkpoint(arena.checkpoint());
    let mut rewound = VirtualMemoryArena::new_preallocate(
        Simulated::new(),
        MemoryAmount::bytes(64),
        MemoryAmount::bytes(32),
    )
    .unwrap();
    let fits = rewound.complete_allocation(MemoryAmount::bytes(32), false).unwrap();
    assert_eq!(fits.amount.amount_bytes(), 32);
}

#[test]
fn reserve_checks_what_the_platform_hands_out() {
    let mut platform = Simulated::new();
    let region = reserve(&mut platform, MemoryAmount::kibibytes(4)).unwrap();
    assert_eq!(region.base_address, 0x10_0000);
    assert_eq!(region.amount.amount_bytes(), 4096);
    assert!(reserve(&mut Exhausted, MemoryAmount::bytes(1)).is_err());
}

#[test]
fn fresh_arena_commits_exactly_what_an_allocation_needs() {
    let mut arena = VirtualMemoryArena::new(Simulated::new(), MemoryAmount::kibibytes(1)).unwrap();
    assert_eq!(arena.available_committed_memory().amount_bytes(), 0);
    let block = arena.allocate(MemoryAmount::bytes(300)).unwrap();
    assert_eq!(block.base_address, 0x10_0000);
    assert_eq!(block.amount.amount_bytes(), 300);
    assert_eq!(arena.available_reserved_memory().amount_bytes(), 1024 - 300);
    assert_eq!(arena.available_committed_memory().amount_bytes(), 0);
    assert_eq!(arena.available_total_memory().amount_bytes(), 724);
    let whole = VirtualMemoryArena::new(Simulated::new(), MemoryAmount::kibibytes(1))
        .unwrap()
        .allocate(MemoryAmount::kibibytes(1));
    assert!(whole.is_ok());
}

#[test]
fn arena_refuses_beyond_its_reservation() {
    let mut arena = VirtualMemoryArena::new(Simulated::new(), MemoryAmount::bytes(64)).unwrap();
    assert_eq!(arena.allocate(MemoryAmount::bytes(65)), Err(AllocError));
    assert_eq!(arena.available_total_memory().amount_bytes(), 64);
    assert!(arena.allocate(MemoryAmount::bytes(64)).is_ok());
    assert_eq!(arena.allocate(MemoryAmount::bytes(1)), Err(AllocError));
}

#[test]
fn arena_reports_refused_commits_unchanged() {
    let mut arena =
        VirtualMemoryArena::new(Simulated::with_commit_limit(100), MemoryAmount::kibibytes(1))
            .unwrap();
    assert!(arena.allocate(MemoryAmount::bytes(60)).is_ok());
    assert_eq!(arena.allocate(MemoryAmount::bytes(60)), Err(AllocError));
    assert_eq!(arena.checkpoint().amount().amount_bytes(), 60);
    assert_eq!(arena.available_reserved_memory().amount_bytes(), 1024 - 60);
}

#[test]
fn checkpoint_restore_reuses_the_same_offset() {
    let mut arena = VirtualMemoryArena::new(Simulated::new(), MemoryAmount::kibibytes(4)).unwrap();
    arena.allocate(MemoryAmount::bytes(100)).unwrap();
    let checkpoint = arena.checkpoint();
    assert_eq!(checkpoint.amount().amount_bytes(), 100);
    let first = arena.allocate(MemoryAmount::bytes(200)).unwrap();
    arena.restore_checkpoint(checkpoint);
    let second = arena.allocate(MemoryAmount::bytes(200)).unwrap();
    assert_eq!(first, second);
    assert_eq!(first.base_address, 0x10_0000 + 100);
}

#[test]
fn zeroed_allocation_only_from_untouched_memory() {
    let mut arena = VirtualMemoryArena::new(Simulated::new(), MemoryAmount::kibibytes(4)).unwrap();
    let checkpoint = arena.checkpoint();
    let first = arena.allocate_zeroed(MemoryAmount::bytes(64)).unwrap();
    assert_eq!(first.base_address, 0x10_0000);
    arena.restore_checkpoint(checkpoint);
    assert_eq!(arena.allocate_zeroed(MemoryAmount::bytes(16)), Err(AllocError));
    assert_eq!(arena.checkpoint().amount().amount_bytes(), 0);
    arena.allocate(MemoryAmount::bytes(64)).unwrap();
    let fresh = arena.allocate_zeroed(MemoryAmount::bytes(16)).unwrap();
    assert_eq!(fresh.base_address, 0x10_0000 + 64);
}

#[test]
fn preallocated_arena_stages() {
    let arena = VirtualMemoryArena::new_preallocate(
        Simulated::new(),
        MemoryAmount::kibibytes(1),
        MemoryAmount::bytes(512),
    )
    .unwrap();
    assert_eq!(arena.available_committed_memory().amount_bytes(), 512);
    assert_eq!(arena.available_reserved_memory().amount_bytes(), 512);
    assert!(matches!(
        VirtualMemoryArena::new_preallocate(
            Simulated::new(),
            MemoryAmount::bytes(10),
            MemoryAmount::bytes(11)
        ),
        Err(ArenaPreallocationError::PreallocatedMemoryTooLarge)
    ));
    assert!(matches!(
        VirtualMemoryArena::new_preallocate(Exhausted, MemoryAmount::bytes(10), MemoryAmount::bytes(5)),
        Err(ArenaPreallocationError::Reserve)
    ));
    assert!(matches!(
        VirtualMemoryArena::new_preallocate(
            Simulated::with_commit_limit(4),
            MemoryAmount::bytes(10),
            MemoryAmount::bytes(5)
        ),
        Err(ArenaPreallocationError::Commit)
    ));
}

#[test]
fn split_carves_the_unused_tail() {
    let mut arena = VirtualMemoryArena::new_preallocate(
        Simulated::new(),
        MemoryAmount::bytes(1000),
        MemoryAmount::bytes(900),
    )
    .unwrap();
    arena.allocate(MemoryAmount::bytes(100)).unwrap();
    assert!(arena.split(MemoryAmount::bytes(901)).is_err());
    let mut child = arena.split(MemoryAmount::bytes(300)).unwrap();
    assert_eq!(arena.available_total_memory().amount_bytes(), 600);
    assert_eq!(arena.available_committed_memory().amount_bytes(), 600);
    assert_eq!(child.available_total_memory().amount_bytes(), 300);
    assert_eq!(child.available_committed_memory().amount_bytes(), 200);
    let block = child.allocate(MemoryAmount::bytes(10)).unwrap();
    assert_eq!(block.base_address, 0x10_0000 + 700);
    let parent_block = arena.allocate(MemoryAmount::bytes(10)).unwrap();
    assert_eq!(parent_block.base_address, 0x10_0000 + 100);
}

#[test]
fn arena_grows_its_last_block_in_place() {
    let mut arena = VirtualMemoryArena::new(Simulated::new(), MemoryAmount::kibibytes(1)).unwrap();
    let first = arena.allocate(MemoryAmount::bytes(16)).unwrap();
    let grown = arena.grow(first, MemoryAmount::bytes(32)).unwrap();
    assert_eq!(grown.base_address, first.base_address);
    assert_eq!(grown.amount.amount_bytes(), 32);
    let other = arena.allocate(MemoryAmount::bytes(8)).unwrap();
    let moved = arena.grow(first, MemoryAmount::bytes(64)).unwrap();
    assert_eq!(moved.base_address, other.base_address + 8);
    let shrunk = arena.shrink(moved, MemoryAmount::bytes(4));
    assert_eq!(shrunk.base_address, moved.base_address);
    assert_eq!(shrunk.amount.amount_bytes(), 4);
}

#[test]
fn arena_release_gives_everything_back() {
    let mut arena = VirtualMemoryArena::new(Simulated::new(), MemoryAmount::kibibytes(2)).unwrap();
    arena.allocate(MemoryAmount::bytes(10)).unwrap();
    arena.release();
}

#[test]
fn os_allocator_maps_one_span_per_request() {
    let mut allocator = OsAllocator { platform: Simulated::new() };
    let block = Allocator::allocate(&mut allocator, MemoryAmount::bytes(64)).unwrap();
    assert_eq!(block.amount.amount_bytes(), 64);
    let grown = Allocator::grow(&mut allocator, block, MemoryAmount::bytes(128)).unwrap();
    assert_eq!(grown.amount.amount_bytes(), 128);
    assert_eq!(allocator.platform.released, vec![(block.base_address, 64)]);
    Allocator::deallocate(&mut allocator, grown);
    let mut refusing = OsAllocator { platform: Exhausted };
    assert_eq!(Allocator::allocate(&mut refusing, MemoryAmount::bytes(1)), Err(AllocError));
}

#[test]
fn windows_flag_values() {
    assert_eq!(AllocationType::Commit.flag() | AllocationType::Reserve.flag(), 0x3000);
    assert_eq!(MemoryProtection::ReadWrite.flag(), 0x04);
    assert_eq!(MemoryProtection::ExecuteReadWrite.flag(), 0x40);
    assert_eq!(FreeType::Release.flag(), 0x8000);
    assert_eq!(FreeType::Decommit.flag(), 0x4000);
}
