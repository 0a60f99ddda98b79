//! What a platform reports about one display.

use vstd::prelude::*;
use crate::scale::Scale;

verus! {

/// Clockwise rotation of a display, in quarter turns.
#[derive(Clone, Copy, Debug, PartialEq, Eq, Structural)]
pub enum Rotation {
    Deg0,
    Deg90,
    Deg180,
    Deg270,
}

impl Rotation {
    pub open spec fn degrees_spec(self) -> int {
        match self {
            Rotation::Deg0 => 0,
            Rotation::Deg90 => 90,
            Rotation::Deg180 => 180,
            Rotation::Deg270 => 270,
        }
    }

    /// A display turned by 90 or 270 degrees has its native axes exchanged.
    pub open spec fn swaps_axes_spec(self) -> bool {
        self == Rotation::Deg90 || self == Rotation::Deg270
    }

    /// The rotation in degrees: 0, 90, 180 or 270.
    pub fn degrees(self) -> (d: u32)
        ensures
            d == self.degrees_spec(),
    {
        match self {
            Rotation::Deg0 => 0,
            Rotation::Deg90 => 90,
            Rotation::Deg180 => 180,
            Rotation::Deg270 => 270,
        }
    }

    /// The rotation of that many degrees, if it is a quarter turn below 360.
    pub fn from_degrees(degrees: u32) -> (r: Option<Rotation>)
        ensures
            r is Some <==> degrees == 0 || degrees == 90 || degrees == 180 || degrees == 270,
            r matches Some(rotation) ==> rotation.degrees_spec() == degrees,
    {
        if degrees == 0 {
            Some(Rotation::Deg0)
        } else if degrees == 90 {
            Some(Rotation::Deg90)
        } else if degrees == 180 {
            Some(Rotation::Deg180)
        } else if degrees == 270 {
            Some(Rotation::Deg270)
        } else {
            None
        }
    }

    #[verifier::when_used_as_spec(swaps_axes_spec)]
    pub fn swaps_axes(self) -> (b: bool)
        ensures
            b == self.swaps_axes_spec(),
    {
        match self {
            Rotation::Deg90 | Rotation::Deg270 => true,
            Rotation::Deg0 | Rotation::Deg180 => false,
        }
    }
}

/// A snapshot of one display's reported geometry and nominal scale.
#[derive(Clone, Copy, Debug)]
pub struct DisplayDescriptor {
    /// Identifier the platform gives the display.
    pub id: u32,
    /// Logical position of the display on the desktop; may be negative.
    pub x: i32,
    pub y: i32,
    /// Logical size of the display.
    pub width: u32,
    pub height: u32,
    /// Scale factor the platform reports.
    pub nominal_scale: Scale,
    pub rotation: Rotation,
    pub is_primary: bool,
}

impl DisplayDescriptor {
    pub open spec fn wf(self) -> bool {
        self.nominal_scale.wf()
    }
}

} // verus!
