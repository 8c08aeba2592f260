//! Where on the bus a sensor answers.

use vstd::prelude::*;

verus! {

/// Bus address of a sensor.
///
/// The Si7013 answers at one of two addresses, selected by the level of its
/// address pin. Every other member of the family answers at [`Address::H40`]
/// only.
#[derive(Clone, Copy, Debug, PartialEq, Eq)]
pub enum Address {
    /// 0x40
    H40,
    /// 0x41
    H41,
}

impl Address {
    /// The seven-bit address, right-aligned.
    pub open spec fn spec_value(self) -> u8 {
        match self {
            Address::H40 => 0x40,
            Address::H41 => 0x41,
        }
    }

    /// The seven-bit address, right-aligned, as it is handed to the bus.
    #[verifier::when_used_as_spec(spec_value)]
    pub fn value(self) -> (value: u8)
        ensures
            value == self.spec_value(),
    {
        match self {
            Address::H40 => 0x40,
            Address::H41 => 0x41,
        }
    }
}

} // verus!
