use vstd::prelude::*;

verus! {

/// A serialized batch handed to the host, who owns it until it releases it.
/// The empty buffer is the canonical value for "nothing to hand over".
pub struct SafeBytes {
    bytes: Vec<u8>,
}

impl View for SafeBytes {
    type V = Seq<u8>;

    closed spec fn view(&self) -> Seq<u8> {
        self.bytes@
    }
}

impl SafeBytes {
    pub fn new(bytes: Vec<u8>) -> (r: SafeBytes)
        ensures
            r@ == bytes@,
    {
        SafeBytes { bytes }
    }

    /// The canonical empty buffer.
    pub fn empty() -> (r: SafeBytes)
        ensures
            r@ == Seq::<u8>::empty(),
    {
        SafeBytes { bytes: Vec::new() }
    }

    pub fn size(&self) -> (r: usize)
        ensures
            r == self@.len(),
    {
        self.bytes.len()
    }

    pub fn is_empty(&self) -> (r: bool)
        ensures
            r == (self@.len() == 0),
    {
        self.bytes.len() == 0
    }

    pub fn slice(&self) -> (r: &[u8])
        ensures
            r@ == self@,
    {
        self.bytes.as_slice()
    }

    /// Gives up the buffer's bytes, for handing them across the boundary.
    pub fn into_bytes(self) -> (r: Vec<u8>)
        ensures
            r@ == self@,
    {
        self.bytes
    }

    /// Frees the buffer. Taking it by value makes a second release of the
    /// same buffer impossible; the empty buffer is released at no cost.
    pub fn release(self) {
    }
}

} // verus!
