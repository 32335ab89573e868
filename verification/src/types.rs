//! The choices a caller makes when asking for a load.

use vstd::prelude::*;

verus! {

/// The fuel a load consists of.
#[derive(Clone, Copy, Debug, PartialEq, Eq, Structural)]
pub enum FuelType {
    Avgas,
    Mogas,
}

/// The unit in which a fuel volume is reported.
#[derive(Clone, Copy, Debug, PartialEq, Eq, Structural)]
pub enum VolumeType {
    Liter,
    Gallon,
}

/// What a load consists of: plain mass, or one of the fuels.
#[derive(Clone, Copy, Debug, PartialEq, Eq, Structural)]
pub enum MassType {
    Kilo,
    Avgas,
    Mogas,
}

} // verus!
