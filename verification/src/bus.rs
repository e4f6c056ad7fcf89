//! The memory bus as the processor sees it: two independent capabilities, one
//! to read a byte and one to write a byte, both total over the 16-bit address
//! space.
use vstd::prelude::*;

verus! {

/// Something that yields a byte for every 16-bit address.
///
/// A read never fails: an address that maps to nothing yields a fill value of
/// the implementor's choosing.
pub trait Readable {
    /// The byte that a read of `address` yields in the current state.
    spec fn byte_at(&self, address: u16) -> u8;

    fn read(&self, address: u16) -> (value: u8)
        ensures
            value == self.byte_at(address),
    ;
}

/// Something that accepts a byte for every 16-bit address.
///
/// What a write does is the implementor's business (a write to read-only
/// memory is commonly ignored); `after_write` names the state that results.
pub trait Writable: Sized {
    /// The state that results from writing `value` to `address`.
    spec fn after_write(&self, address: u16, value: u8) -> Self;

    fn write(&mut self, address: u16, value: u8)
        ensures
            *final(self) == old(self).after_write(address, value),
    ;
}

/// A bus is anything that can be both read and written.
pub trait Bus: Readable + Writable {

}

} // verus!
