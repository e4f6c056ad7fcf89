//! Named single-bit flags on top of any register that exposes its raw byte.
use vstd::prelude::*;

verus! {

/// A name for a group of bits in a byte.
pub trait BitMask: Sized {
    /// The bits that the name stands for.
    spec fn mask(self) -> u8;

    fn to_mask(self) -> (r: u8)
        ensures
            r == self.mask(),
    ;
}

/// A register whose byte can be read and written whole, and therefore queried
/// and changed flag by flag. `T` names the flags.
pub trait Bitflags<T: BitMask> {
    /// The raw byte.
    spec fn bits(&self) -> u8;

    /// What the register holds after `value` is written: the bits of `value`
    /// that the register implements.
    spec fn stored_bits(value: u8) -> u8;

    fn register(&self) -> (r: u8)
        ensures
            r == self.bits(),
    ;

    fn set_register(&mut self, value: u8)
        ensures
            final(self).bits() == Self::stored_bits(value),
    ;

    /// Whether any bit of `flag`'s mask is set.
    fn contains_flag(&self, flag: T) -> (r: bool)
        ensures
            r == (self.bits() & flag.mask() != 0),
    {
        let mask: u8 = flag.to_mask();
        (self.register() & mask) != 0
    }

    /// Sets or clears the bits of `flag`'s mask and leaves the others alone.
    fn set_flag(&mut self, flag: T, value: bool)
        ensures
            final(self).bits() == Self::stored_bits(
                if value {
                    old(self).bits() | flag.mask()
                } else {
                    old(self).bits() & !flag.mask()
                },
            ),
    {
        let mask: u8 = flag.to_mask();
        let current: u8 = self.register();
        if value {
            self.set_register(current | mask);
        } else {
            self.set_register(current & !mask);
        }
    }
}

} // verus!
