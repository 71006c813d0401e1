//! Buffers and strings backed by an arena of their own.

use vstd::prelude::*;
use vstd::string::StringSliceAdditionalSpecFns;
use vstd::utf8::*;

use crate::arena::{ArenaPreallocationError, VirtualMemoryArena};
use crate::mem::{MemoryAmount, PlatformMemory};
use crate::num::IndexSize;
use crate::sized_vec::{grown_capacity, SizedVec, SizedVecGrowthError};

verus! {

broadcast use {encode_utf8_valid_utf8, valid_utf8_concat};

/// A buffer whose memory comes from an arena that reserves address space for
/// it alone.
///
/// The arena never moves what it handed out: the buffer grows by committing
/// the memory right after its items.
pub struct ArenaVec<T, S: IndexSize, P: PlatformMemory>(SizedVec<T, S, VirtualMemoryArena<P>>);

impl<T, S: IndexSize, P: PlatformMemory> View for ArenaVec<T, S, P> {
    type V = Seq<T>;

    closed spec fn view(&self) -> Seq<T> {
        self.0@
    }
}

impl<T, S: IndexSize, P: PlatformMemory> ArenaVec<T, S, P> {
    /// The buffer is well formed.
    pub closed spec fn wf(&self) -> bool {
        self.0.wf()
    }

    /// How many items the buffer can hold without committing more memory.
    pub closed spec fn capacity_spec(&self) -> int {
        self.0.capacity_spec()
    }

    /// Reserves `to_reserve` bytes for a new, empty buffer. Errors if
    /// reserving fails.
    pub fn new(platform: P, to_reserve: MemoryAmount) -> (r: Result<Self, ()>)
        ensures
            r matches Ok(v) ==> v.wf() && v@ == Seq::<T>::empty() && v.capacity_spec() == 0,
    {
        let arena = VirtualMemoryArena::new(platform, to_reserve)?;
        Ok(ArenaVec(SizedVec::with_allocator(arena)))
    }

    /// Reserves `to_reserve` bytes for a new, empty buffer, and commits the
    /// first `to_commit` of them so that they can be used right away.
    pub fn new_preallocate(platform: P, to_reserve: MemoryAmount, to_commit: MemoryAmount) -> (r:
        Result<Self, ArenaPreallocationError>)
        ensures
            to_commit@ > to_reserve@ <==> r == Err::<Self, _>(
                ArenaPreallocationError::PreallocatedMemoryTooLarge,
            ),
            r matches Ok(v) ==> v.wf() && v@ == Seq::<T>::empty() && v.capacity_spec() == 0,
    {
        let arena = VirtualMemoryArena::new_preallocate(platform, to_reserve, to_commit)?;
        Ok(ArenaVec(SizedVec::with_allocator(arena)))
    }

    /// Appends `val`, growing as [`SizedVec::push`] does.
    pub fn push(&mut self, val: T) -> (r: Result<(), SizedVecGrowthError>)
        requires
            old(self).wf(),
        ensures
            final(self).wf(),
            match r {
                Ok(()) => {
                    &&& final(self)@ == old(self)@.push(val)
                    &&& final(self).capacity_spec() == if old(self)@.len() < old(
                        self,
                    ).capacity_spec() {
                        old(self).capacity_spec()
                    } else {
                        grown_capacity(old(self).capacity_spec(), S::max_spec(), size_of::<T>() as nat)
                    }
                },
                Err(_) => {
                    &&& final(self)@ == old(self)@
                    &&& final(self).capacity_spec() == old(self).capacity_spec()
                },
            },
            old(self)@.len() < old(self).capacity_spec() ==> r is Ok,
            r == Err::<(), _>(SizedVecGrowthError::MaxPossibleCapacity) <==> old(self)@.len()
                == S::max_spec(),
    {
        self.0.push(val)
    }

    /// Tears the buffer down: drops every item, then gives the arena's
    /// memory back to the system.
    pub fn release(self)
        requires
            self.wf(),
    {
        self.0.release().release()
    }

    /// The buffer itself, to read.
    pub fn as_sized_vec(&self) -> (r: &SizedVec<T, S, VirtualMemoryArena<P>>)
        ensures
            r@ == self@,
            r.wf() == self.wf(),
            r.capacity_spec() == self.capacity_spec(),
    {
        &self.0
    }
}

impl<T: Copy, S: IndexSize, P: PlatformMemory> ArenaVec<T, S, P> {
    /// Appends a copy of every item of `slice`, growing as
    /// [`SizedVec::extend_slice`] does. Fails, changing nothing, where
    /// growing fails.
    pub fn extend_slice(&mut self, slice: &[T]) -> (r: Result<(), SizedVecGrowthError>)
        requires
            old(self).wf(),
        ensures
            final(self).wf(),
            match r {
                Ok(()) => final(self)@ == old(self)@ + slice@,
                Err(_) => final(self)@ == old(self)@,
            },
            old(self)@.len() + slice@.len() <= old(self).capacity_spec() ==> r is Ok,
            r == Err::<(), _>(SizedVecGrowthError::MaxPossibleCapacity) <==> old(self)@.len()
                + slice@.len() > S::max_spec(),
    {
        self.0.extend_slice(slice)
    }
}

impl<T, S: IndexSize, P: PlatformMemory> core::ops::Deref for ArenaVec<T, S, P> {
    type Target = SizedVec<T, S, VirtualMemoryArena<P>>;

    fn deref(&self) -> (r: &SizedVec<T, S, VirtualMemoryArena<P>>)
        ensures
            r@ == self@,
    {
        &self.0
    }
}

/// Relies on `core::str::from_utf8`: it accepts exactly the byte sequences
/// that are valid UTF-8, and views them as a string slice over the same
/// bytes.
#[verifier::external_body]
fn str_from_utf8(bytes: &[u8]) -> (r: Option<&str>)
    ensures
        r is Some <==> valid_utf8(bytes@),
        r matches Some(s) ==> s.spec_bytes() == bytes@,
{
    core::str::from_utf8(bytes).ok()
}

/// The UTF-8 encoding of `c`.
pub fn encode_char(c: char) -> (r: Vec<u8>)
    ensures
        r@ == encode_utf8(seq![c]),
{
    let v = c as u32;
    proof {
        char_is_scalar(c);
        let chars = seq![c];
        assert(chars.drop_first() =~= Seq::<char>::empty());
        assert(encode_utf8(chars) == encode_scalar(chars[0] as u32) + encode_utf8(
            chars.drop_first(),
        ));
        assert(encode_utf8(chars) =~= encode_scalar(v));
    }
    let r = if v <= 0x7F {
        vec![(v & 0x7F) as u8]
    } else if v <= 0x7FF {
        vec![0xC0 | ((v >> 6) & 0x1F) as u8, 0x80 | (v & 0x3F) as u8]
    } else if v <= 0xFFFF {
        vec![
            0xE0 | ((v >> 12) & 0x0F) as u8,
            0x80 | ((v >> 6) & 0x3F) as u8,
            0x80 | (v & 0x3F) as u8,
        ]
    } else {
        vec![
            0xF0 | ((v >> 18) & 0x7) as u8,
            0x80 | ((v >> 12) & 0x3F) as u8,
            0x80 | ((v >> 6) & 0x3F) as u8,
            0x80 | (v & 0x3F) as u8,
        ]
    };
    assert(r@ =~= encode_scalar(v));
    r
}

/// A UTF-8 string whose bytes live in an arena of its own.
pub struct ArenaString<S: IndexSize, P: PlatformMemory>(ArenaVec<u8, S, P>);

impl<S: IndexSize, P: PlatformMemory> ArenaString<S, P> {
    /// The string's bytes.
    pub closed spec fn bytes(&self) -> Seq<u8> {
        self.0@
    }

    /// The buffer is well formed and holds valid UTF-8.
    pub closed spec fn wf(&self) -> bool {
        self.0.wf() && valid_utf8(self.0@)
    }

    /// Reserves `to_reserve` bytes for a new, empty string. Errors if
    /// reserving fails.
    pub fn new(platform: P, to_reserve: MemoryAmount) -> (r: Result<Self, ()>)
        ensures
            r matches Ok(s) ==> s.wf() && s.bytes() == Seq::<u8>::empty(),
    {
        let v = ArenaVec::new(platform, to_reserve)?;
        proof {
            assert(encode_utf8(Seq::<char>::empty()) == Seq::<u8>::empty());
        }
        Ok(ArenaString(v))
    }

    /// Reserves `to_reserve` bytes for a new, empty string, and commits the
    /// first `to_commit` of them so that they can be used right away.
    pub fn new_preallocate(platform: P, to_reserve: MemoryAmount, to_commit: MemoryAmount) -> (r:
        Result<Self, ArenaPreallocationError>)
        ensures
            to_commit@ > to_reserve@ <==> r == Err::<Self, _>(
                ArenaPreallocationError::PreallocatedMemoryTooLarge,
            ),
            r matches Ok(s) ==> s.wf() && s.bytes() == Seq::<u8>::empty(),
    {
        let v = ArenaVec::new_preallocate(platform, to_reserve, to_commit)?;
        proof {
            assert(encode_utf8(Seq::<char>::empty()) == Seq::<u8>::empty());
        }
        Ok(ArenaString(v))
    }

    /// Appends the UTF-8 encoding of `c`. Fails, changing nothing, where the
    /// string cannot grow.
    pub fn push_char(&mut self, c: char) -> (r: Result<(), SizedVecGrowthError>)
        requires
            old(self).wf(),
        ensures
            final(self).wf(),
            match r {
                Ok(()) => final(self).bytes() == old(self).bytes() + encode_utf8(seq![c]),
                Err(_) => final(self).bytes() == old(self).bytes(),
            },
    {
        let encoded = encode_char(c);
        self.0.extend_slice(encoded.as_slice())
    }

    /// Appends the bytes of `s`. Fails, changing nothing, where the string
    /// cannot grow.
    pub fn push_str(&mut self, s: &str) -> (r: Result<(), SizedVecGrowthError>)
        requires
            old(self).wf(),
        ensures
            final(self).wf(),
            match r {
                Ok(()) => final(self).bytes() == old(self).bytes() + s.spec_bytes(),
                Err(_) => final(self).bytes() == old(self).bytes(),
            },
    {
        self.0.extend_slice(s.as_bytes())
    }

    /// The string, checked to be valid UTF-8.
    pub fn as_str(&self) -> (r: &str)
        requires
            self.wf(),
        ensures
            r.spec_bytes() == self.bytes(),
    {
        match str_from_utf8(self.0.as_sized_vec().as_slice()) {
            Some(s) => s,
            None => "",
        }
    }
}

} // verus!
