//! Destinations that bytes can be written to.

use vstd::prelude::*;

verus! {

/// A destination that bytes can be copied into.
pub trait Writer: Sized {
    /// What went wrong while writing.
    type Error;

    /// The writer is in a state where it accepts bytes.
    spec fn ready(&self) -> bool;

    /// Copies bytes into the writer, returning how many were taken, or an
    /// error.
    fn write(&mut self, bytes: &[u8]) -> (r: Result<usize, Self::Error>)
        requires
            old(self).ready(),
        ensures
            final(self).ready(),
    ;

    /// Makes sure that everything written so far has reached its
    /// destination.
    fn flush(&mut self) -> (r: Result<(), Self::Error>)
        requires
            old(self).ready(),
        ensures
            final(self).ready(),
    ;
}

} // verus!
