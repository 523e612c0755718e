//! The supply voltage of a hash chain, held within what the regulator accepts.

use vstd::prelude::*;

verus! {

/// Lowest voltage the regulator accepts, in millivolts.
pub const VOLTAGE_MIN: u32 = 7_950;

/// Highest voltage the regulator accepts, in millivolts.
pub const VOLTAGE_MAX: u32 = 9_400;

pub open spec fn voltage_in_range(mv: u32) -> bool {
    VOLTAGE_MIN <= mv && mv <= VOLTAGE_MAX
}

/// A supply voltage that the regulator accepts.
#[derive(Clone, Copy, Debug, PartialEq, Eq, Structural)]
pub struct Voltage {
    millivolts: u32,
}

impl View for Voltage {
    type V = u32;

    closed spec fn view(&self) -> u32 {
        self.millivolts
    }
}

impl Voltage {
    #[verifier::type_invariant]
    spec fn inv(self) -> bool {
        voltage_in_range(self.millivolts)
    }

    /// The voltage of `mv` millivolts, or `None` where the regulator cannot
    /// supply it.
    pub fn from_millivolts(mv: u32) -> (r: Option<Voltage>)
        ensures
            r is Some <==> voltage_in_range(mv),
            r matches Some(v) ==> v@ == mv,
    {
        if VOLTAGE_MIN <= mv && mv <= VOLTAGE_MAX {
            Some(Voltage { millivolts: mv })
        } else {
            None
        }
    }

    /// The voltage in millivolts.
    pub fn millivolts(&self) -> (r: u32)
        ensures
            r == self@,
            voltage_in_range(r),
    {
        proof {
            use_type_invariant(self);
        }
        self.millivolts
    }
}

} // verus!
