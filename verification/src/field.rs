//! The bit-field capability shared by every peripheral wrapper: an enum
//! variant knows the mask it contributes to its register.

use vstd::prelude::*;

verus! {

/// Defines a bit field within a register.
///
/// `spec_mask` is the mathematical value of the field's mask; `mask` returns
/// exactly that value.
pub trait Field {
    /// The mask this field variant stands for.
    spec fn spec_mask(&self) -> u32;

    /// Return the bit mask for the register bit field.
    fn mask(&self) -> (r: u32)
        ensures
            r == self.spec_mask(),
    ;
}

} // verus!
