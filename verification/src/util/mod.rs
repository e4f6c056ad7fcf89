pub mod bitflags;
pub mod bits;
pub mod drawer;
pub mod parse_hex;

use vstd::prelude::*;

verus! {

/// `value` wrapped around at `max`: the remainder of `value` by `max`.
pub fn wrap_value(value: usize, max: usize) -> (r: usize)
    requires
        max > 0,
    ensures
        r == value % max,
{
    value % max
}

} // verus!
