//! One-time-consume buffers for moving data across the host boundary.
//!
//! Every boundary operation that returns data does so through an output slot
//! that the host either fills or leaves unset.  The receiving side must take
//! the contents out exactly once; taking them is a move, so a second take is
//! impossible, and the contents cannot be read once taken.

use vstd::prelude::*;

verus! {

/// An output slot filled by the far side of the host boundary.
///
/// The payload can be taken out only by [`TransientBuffer::consume`], which
/// moves the whole buffer; ownership therefore enforces the exactly-once
/// consumption discipline that the boundary protocol demands.
pub struct TransientBuffer<T> {
    data: Option<T>,
}

impl<T> TransientBuffer<T> {
    /// The payload this buffer carries, or `None` when the host left it unset.
    pub closed spec fn contents(self) -> Option<T> {
        self.data
    }

    /// A buffer the host filled with `value`.
    pub fn filled(value: T) -> (r: Self)
        ensures
            r.contents() == Some(value),
    {
        TransientBuffer { data: Some(value) }
    }

    /// A buffer the host left unset.
    pub fn unset() -> (r: Self)
        ensures
            r.contents() is None,
    {
        TransientBuffer { data: None }
    }

    /// Whether the host filled this buffer.
    pub fn is_filled(&self) -> (r: bool)
        ensures
            r == (self.contents() is Some),
    {
        self.data.is_some()
    }

    /// Takes the payload out.  The buffer is moved, so it can never be
    /// consumed a second time.
    pub fn consume(self) -> (r: Option<T>)
        ensures
            r == self.contents(),
    {
        self.data
    }
}

} // verus!
