use crux::allocator::{AllocError, Allocator, GlobalAllocator};
use crux::collections::{encode_char, ArenaString, ArenaVec};
use crux::io::Writer;
use crux::mem::{MemoryAmount, PlatformMemory, ReservedMemory};
use crux::sized_vec::{SizedVec, SizedVecGrowthError, SizedVecReallocError};
use crux::typed_vec::TypedVec;

/// Hands out addresses from a counter and commits whatever it is asked to.
struct Simulated {
    next_address: usize,
    commits: usize,
}

impl Simulated {
    fn new() -> Self {
        Simulated { next_address: 0x20_0000, commits: 0 }
    }
}

impl PlatformMemory for Simulated {
    fn reserve(&mut self, amount: usize) -> Result<usize, ()> {
        let address = self.next_address;
        self.next_address += amount + 0x1000;
        Ok(address)
    }

    fn commit(&mut self, _address: usize, _amount: usize) -> Result<(), ()> {
        self.commits += 1;
        Ok(())
    }

    fn decommit(&mut self, _address: usize, _amount: usize) {}

    fn release(&mut self, _address: usize, _amount: usize) {}
}

/// Grants a fixed number of requests, then refuses every one.
struct Grants {
    left: usize,
}

impl Allocator for Grants {
    fn allocate(&mut self, amount: MemoryAmount) -> Result<ReservedMemory, AllocError> {
        if self.left == 0 {
            return Err(AllocError);
        }
        self.left -= 1;
        Ok(ReservedMemory { base_address: 0x1000, amount })
    }

    fn allocate_zeroed(&mut self, amount: MemoryAmount) -> Result<ReservedMemory, AllocError> {
        self.allocate(amount)
    }

    fn grow(
        &mut self,
        _block: ReservedMemory,
        new_amount: MemoryAmount,
    ) -> Result<ReservedMemory, AllocError> {
        self.allocate(new_amount)
    }

    fn shrink(
        &mut self,
        _block: ReservedMemory,
        new_amount: MemoryAmount,
    ) -> Result<ReservedMemory, AllocError> {
        self.allocate(new_amount)
    }

    fn deallocate(&mut self, _block: ReservedMemory) {}
}

#[test]
fn arenavec() {
    let mut vec =
        ArenaVec::<u32, usize, Simulated>::new(Simulated::new(), MemoryAmount::kibibytes(1))
            .unwrap();

    assert!(vec.is_empty());

    vec.push(69).unwrap();
    vec.push(420).unwrap();

    assert!(!vec.is_empty());
    assert_eq!(vec.len(), 2);

    assert_eq!(*vec.get(0).unwrap(), 69);
    assert_eq!(*vec.get(1).unwrap(), 420);
}

#[test]
fn sized_arenavec() {
    let mut vec =
        ArenaVec::<u8, u32, Simulated>::new(Simulated::new(), MemoryAmount::kibibytes(1)).unwrap();

    assert!(vec.is_empty());
    vec.push(0u8).unwrap();
    assert_eq!(vec.len(), 1u32);
    vec.push(1u8).unwrap();
    assert_eq!(vec.len(), 2u32);

    assert_eq!(*vec.get(0u32).unwrap(), 0u8);
    assert_eq!(*vec.get(1u32).unwrap(), 1u8);
    assert_eq!(vec.get_range(0u32..=1u32).unwrap(), [0u8, 1u8]);
}

#[test]
fn arena_backed_pushes_of_five_u32() {
    let mut vec = ArenaVec::<u32, usize, Simulated>::new_preallocate(
        Simulated::new(),
        MemoryAmount::kibibytes(1),
        MemoryAmount::bytes(0),
    )
    .unwrap();
    for value in [3u32, 1, 4, 1, 5] {
        vec.push(value).unwrap();
    }
    assert_eq!(vec.len(), 5);
    assert_eq!(vec.as_sized_vec().as_slice(), [3, 1, 4, 1, 5]);
    assert_eq!(vec.capacity(), 8);
    vec.release();
}

#[test]
fn arena_vec_extends_from_slices() {
    let mut vec =
        ArenaVec::<u16, u16, Simulated>::new(Simulated::new(), MemoryAmount::kibibytes(1)).unwrap();
    vec.extend_slice(&[1, 2, 3]).unwrap();
    vec.extend_slice(&[]).unwrap();
    vec.extend_slice(&[4]).unwrap();
    assert_eq!(vec.as_slice(), [1, 2, 3, 4]);
    let mut small =
        ArenaVec::<u8, u8, Simulated>::new(Simulated::new(), MemoryAmount::bytes(16)).unwrap();
    assert_eq!(small.extend_slice(&[0u8; 17]), Err(SizedVecGrowthError::ReallocationFailed));
    assert!(small.is_empty());
}

#[test]
fn u8_index_stops_at_its_maximum() {
    let mut vec: SizedVec<u32, u8, GlobalAllocator> = SizedVec::new();
    for i in 0..255u32 {
        assert_eq!(vec.push(i), Ok(()));
    }
    assert_eq!(vec.len(), 255u8);
    assert_eq!(vec.capacity(), 255u8);
    assert_eq!(vec.push(255), Err(SizedVecGrowthError::MaxPossibleCapacity));
    assert_eq!(vec.len(), 255u8);
    assert_eq!(*vec.get(254).unwrap(), 254);
    assert_eq!(*vec.get(0).unwrap(), 0);
}

#[test]
fn growth_doubles_and_keeps_items() {
    let mut vec: SizedVec<u64, u32, GlobalAllocator> = SizedVec::new();
    assert_eq!(vec.capacity(), 0);
    vec.push(10).unwrap();
    assert_eq!(vec.capacity(), 4);
    for i in 1..4u64 {
        vec.push(10 + i).unwrap();
    }
    assert_eq!(vec.capacity(), 4);
    vec.push(14).unwrap();
    assert_eq!(vec.capacity(), 8);
    assert_eq!(vec.as_slice(), [10, 11, 12, 13, 14]);

    let mut bytes: SizedVec<u8, u32, GlobalAllocator> = SizedVec::new();
    bytes.push(1).unwrap();
    assert_eq!(bytes.capacity(), 8);
    let mut big: SizedVec<[u8; 2048], u32, GlobalAllocator> = SizedVec::new();
    big.push([0; 2048]).unwrap();
    assert_eq!(big.capacity(), 1);
    big.push([1; 2048]).unwrap();
    assert_eq!(big.capacity(), 2);
}

#[test]
fn signed_index_widths() {
    let mut vec: SizedVec<u8, i8, GlobalAllocator> = SizedVec::new();
    vec.push(5).unwrap();
    assert_eq!(vec.get(-1), None);
    assert_eq!(vec.get(1), None);
    assert_eq!(vec.get(0), Some(&5));
    for _ in 1..127 {
        vec.push(0).unwrap();
    }
    assert_eq!(vec.len(), 127i8);
    assert_eq!(vec.push(0), Err(SizedVecGrowthError::MaxPossibleCapacity));
}

#[test]
fn reads_and_writes_by_index() {
    let mut vec: SizedVec<i32, usize, GlobalAllocator> = SizedVec::with_capacity(3);
    assert_eq!(vec.capacity(), 3);
    assert_eq!(vec.remaining_capacity(), 3);
    vec.extend_slice(&[1, 2, 3]).unwrap();
    assert_eq!(vec.remaining_capacity(), 0);
    *vec.get_mut(1).unwrap() = 20;
    assert!(vec.get_mut(3).is_none());
    *vec.get_mut_unchecked(2) = 30;
    assert_eq!(*vec.get_unchecked(0), 1);
    assert_eq!(vec.as_slice(), [1, 20, 30]);
    vec.as_slice_mut()[0] = 100;
    assert_eq!(vec.get_range(1..3).unwrap(), [20, 30]);
    assert_eq!(vec.get_range(0..0).unwrap(), []);
    assert!(vec.get_range(2..4).is_none());
    assert!(vec.get_range(2..1).is_none());
    vec.get_range_mut(0..2).unwrap()[1] = 7;
    assert_eq!(vec.get_range_unchecked(0..3), [100, 7, 30]);
    assert!(vec.get_range_mut(1..5).is_none());
    assert_eq!(vec.get_range(1..).unwrap(), [7, 30]);
    assert_eq!(vec.get_range(3..).unwrap(), []);
    assert!(vec.get_range(4..).is_none());
    assert_eq!(vec.get_range(..2).unwrap(), [100, 7]);
    assert!(vec.get_range(..4).is_none());
    assert_eq!(vec.get_range(..=2).unwrap(), [100, 7, 30]);
    assert!(vec.get_range(..=3).is_none());
    assert_eq!(vec.get_range(..).unwrap(), [100, 7, 30]);
    assert_eq!(vec.get_range(1..=2).unwrap(), [7, 30]);
    assert_eq!(vec.get_range(1..=0).unwrap(), []);
    assert!(vec.get_range(1..=3).is_none());
    vec.get_range_mut(..).unwrap()[2] = 31;
    assert_eq!(*vec.get_range_mut_unchecked(2..).first().unwrap(), 31);
}

#[test]
fn capacity_management() {
    let mut vec: SizedVec<u8, u8, GlobalAllocator> = SizedVec::new();
    vec.extend_slice(&[1, 2, 3]).unwrap();
    assert_eq!(vec.capacity(), 3);
    assert_eq!(vec.reallocate_with_capacity(2), Err(SizedVecReallocError::CannotShrink));
    assert_eq!(vec.reallocate_with_capacity(10), Ok(()));
    assert_eq!(vec.capacity(), 10);
    assert_eq!(vec.reallocate_with_capacity(3), Ok(()));
    assert_eq!(vec.capacity(), 3);
    assert_eq!(vec.reserve_additional_capacity(7), Ok(()));
    assert_eq!(vec.capacity(), 10);
    assert_eq!(vec.reserve_additional_capacity(250), Err(SizedVecGrowthError::MaxPossibleCapacity));
    assert_eq!(vec.ensure_additional_capacity(7), Ok(()));
    assert_eq!(vec.capacity(), 10);
    assert_eq!(vec.ensure_additional_capacity(9), Ok(()));
    assert_eq!(vec.capacity(), 12);
    assert_eq!(vec.ensure_additional_capacity(253), Err(SizedVecGrowthError::MaxPossibleCapacity));
    assert_eq!(vec.as_slice(), [1, 2, 3]);
    let _allocator: GlobalAllocator = vec.release();
    let default: SizedVec<u8, u8, GlobalAllocator> = SizedVec::default();
    assert!(default.is_empty());
    let typed: TypedVec<u8, u32, GlobalAllocator> = TypedVec::default();
    assert_eq!(typed.get(0), None);
}

#[test]
fn negative_capacity_cannot_shrink() {
    let mut vec: SizedVec<u8, i8, GlobalAllocator> = SizedVec::new();
    assert_eq!(vec.reallocate_with_capacity(-1), Err(SizedVecReallocError::CannotShrink));
    assert_eq!(vec.ensure_additional_capacity(-5), Ok(()));
    assert_eq!(vec.capacity(), 0);
}

#[test]
fn byte_sizes_beyond_usize_are_refused() {
    let mut vec: SizedVec<u32, usize, GlobalAllocator> = SizedVec::new();
    assert_eq!(
        vec.reserve_additional_capacity(usize::MAX / 2),
        Err(SizedVecGrowthError::ReallocationFailed)
    );
    assert_eq!(
        vec.reallocate_with_capacity(usize::MAX / 2),
        Err(SizedVecReallocError::ReallocationFailed)
    );
    assert_eq!(vec.capacity(), 0);
}

#[test]
fn growth_targets() {
    assert_eq!(SizedVec::<u8, u32, GlobalAllocator>::growth_target(0, 100), 8);
    assert_eq!(SizedVec::<u32, u32, GlobalAllocator>::growth_target(0, 100), 4);
    assert_eq!(SizedVec::<[u8; 4096], u32, GlobalAllocator>::growth_target(0, 100), 1);
    assert_eq!(SizedVec::<u8, u32, GlobalAllocator>::growth_target(0, 5), 5);
    assert_eq!(SizedVec::<u8, u32, GlobalAllocator>::growth_target(16, 100), 32);
    assert_eq!(SizedVec::<u8, u32, GlobalAllocator>::growth_target(60, 100), 100);
}

#[test]
fn refused_growth_changes_nothing() {
    let mut vec: SizedVec<u8, usize, Grants> = SizedVec::with_allocator(Grants { left: 1 });
    vec.push(1).unwrap();
    assert_eq!(vec.capacity(), 8);
    for i in 2..=8 {
        vec.push(i).unwrap();
    }
    assert_eq!(vec.push(9), Err(SizedVecGrowthError::ReallocationFailed));
    assert_eq!(vec.len(), 8);
    assert_eq!(vec.capacity(), 8);
    let refused = SizedVec::<u8, usize, Grants>::with_allocator_and_capacity(Grants { left: 0 }, 4);
    assert!(matches!(refused, Err(SizedVecGrowthError::ReallocationFailed)));
}

#[test]
fn write_stops_at_capacity_when_growth_fails() {
    let mut vec =
        SizedVec::<u8, usize, Grants>::with_allocator_and_capacity(Grants { left: 1 }, 100)
            .unwrap();
    let data = [7u8; 2000];
    assert_eq!(vec.remaining_capacity(), 100);
    assert_eq!(vec.write(&data), Err(SizedVecGrowthError::ReallocationFailed));
    assert_eq!(vec.len(), 100);
    assert_eq!(vec.remaining_capacity(), 0);
    assert!(vec.as_slice().iter().all(|b| *b == 7));
}

#[test]
fn write_grows_when_it_can() {
    let mut vec: SizedVec<u8, u16, GlobalAllocator> = SizedVec::new();
    assert_eq!(vec.write(b"hello"), Ok(5));
    assert_eq!(vec.write(b", world"), Ok(7));
    assert_eq!(vec.flush(), Ok(()));
    assert_eq!(vec.as_slice(), b"hello, world");
    let mut tiny: SizedVec<u8, u8, GlobalAllocator> = SizedVec::with_capacity(250);
    assert_eq!(tiny.write(&[1u8; 300]), Err(SizedVecGrowthError::MaxPossibleCapacity));
    assert_eq!(tiny.len(), 250);
}

#[test]
fn typed_vec_indices() {
    let mut vec: TypedVec<&str, u32, GlobalAllocator> = TypedVec::new();
    vec.push("zero").unwrap();
    vec.push("one").unwrap();
    assert_eq!(vec.get(1), Some(&"one"));
    assert_eq!(vec.get(2), None);
    *vec.get_mut(0).unwrap() = "nil";
    assert_eq!(vec.get(0), Some(&"nil"));
    let sized: TypedVec<u8, usize, GlobalAllocator> = TypedVec::with_capacity(4);
    assert_eq!(sized.get(0), None);
    let alloc: TypedVec<u8, usize, Grants> =
        TypedVec::with_allocator_and_capacity(Grants { left: 1 }, 4).unwrap();
    assert_eq!(alloc.get(0), None);
    let _empty: TypedVec<u8, u32, Grants> = TypedVec::with_allocator(Grants { left: 0 });
}

#[test]
fn arena_strings() {
    let mut s =
        ArenaString::<u32, Simulated>::new(Simulated::new(), MemoryAmount::kibibytes(1)).unwrap();
    s.push_str("héllo").unwrap();
    s.push_char(',').unwrap();
    s.push_char(' ').unwrap();
    s.push_char('ß').unwrap();
    s.push_char('€').unwrap();
    s.push_char('𝄞').unwrap();
    assert_eq!(s.as_str(), "héllo, ß€𝄞");
    let pre = ArenaString::<usize, Simulated>::new_preallocate(
        Simulated::new(),
        MemoryAmount::bytes(64),
        MemoryAmount::bytes(32),
    )
    .unwrap();
    assert_eq!(pre.as_str(), "");
}

#[test]
fn utf8_encoding_of_chars() {
    assert_eq!(encode_char('a'), vec![0x61]);
    assert_eq!(encode_char('é'), vec![0xc3, 0xa9]);
    assert_eq!(encode_char('€'), vec![0xe2, 0x82, 0xac]);
    assert_eq!(encode_char('𝄞'), vec![0xf0, 0x9d, 0x84, 0x9e]);
}
