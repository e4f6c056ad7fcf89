//! The register that routes the channels to the two outputs.
use vstd::prelude::*;

verus! {

/// The output selection register.
#[derive(Copy, Clone, Debug)]
pub struct OutputRegister {
    pub register: u8,
}

impl Default for OutputRegister {
    fn default() -> (r: Self)
        ensures
            r.register == 0,
    {
        OutputRegister { register: 0 }
    }
}

} // verus!
