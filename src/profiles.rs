//! Units in which a profile shows altimeter settings.
use vstd::prelude::*;

verus! {

/// Altimeter units: inches of mercury or hectopascals.
#[allow(non_camel_case_types)]
#[derive(Clone, Copy, Debug, PartialEq, Eq, Structural)]
pub enum AltimeterUnits {
    inHg,
    hPa,
}

impl Default for AltimeterUnits {
    /// Inches of mercury.
    fn default() -> (r: Self)
        ensures
            r == AltimeterUnits::inHg,
    {
        AltimeterUnits::inHg
    }
}

} // verus!
