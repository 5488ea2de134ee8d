//! Opaque offsets into an enclave.

use vstd::prelude::*;
use core::marker::PhantomData;

verus! {

/// An offset of a `T` inside an enclave, which can be neither read nor
/// written through. The lifetime and the type are kept, and the value is
/// held in 64 bits.
#[derive(Debug)]
pub struct Offset<'h, T>(u64, PhantomData<&'h T>);

impl<'h, T> Offset<'h, T> {
    /// The offset, in bytes.
    pub closed spec fn value(&self) -> u64 {
        self.0
    }

    /// An offset of `offset` bytes. Nothing here can dereference it, so
    /// making one is safe; whoever turns it into an address must know that
    /// it lies inside the enclave.
    pub fn new(offset: usize) -> (r: Self)
        ensures
            r.value() == offset as u64,
    {
        Offset(offset as u64, PhantomData)
    }
}

} // verus!
