//! Memory primitives for programs that manage their own address space: byte
//! amounts, reserved regions, a bump arena with checkpoints, and growable
//! buffers whose length and capacity use an integer width of the caller's
//! choosing.

use vstd::prelude::*;

pub mod allocator;
pub mod arena;
pub mod cli;
pub mod collections;
pub mod io;
pub mod mem;
pub mod num;
pub mod sized_vec;
pub mod typed_vec;
pub mod win32;
