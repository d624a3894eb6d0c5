//! What a note is made of: its geometry and the values a new note starts
//! with.

use vstd::prelude::*;

verus! {

/// A binary64 number, carried by its bit pattern.
///
/// Positions and sizes pass through the service untouched: nothing here
/// computes with them, so the bits are all that is needed of them.
#[derive(Debug, Clone, Copy, PartialEq, Eq, Structural)]
pub struct Real {
    pub bits: u64,
}

/// The bit pattern of 200, the width of a note that gives none.
pub const DEFAULT_WIDTH_BITS: u64 = 0x4069_0000_0000_0000;

/// The bit pattern of 150, the height of a note that gives none.
pub const DEFAULT_HEIGHT_BITS: u64 = 0x4062_C000_0000_0000;

/// The stacking index of a note that gives none.
pub const DEFAULT_Z_INDEX: i64 = 0;

/// Where a note lies, how large it is and how high it is stacked.
#[derive(Debug, Clone, Copy, PartialEq, Eq, Structural)]
pub struct Geometry {
    pub x: Real,
    pub y: Real,
    pub width: Real,
    pub height: Real,
    pub z_index: i64,
}

impl Geometry {
    /// The geometry of a note at (`x`, `y`), with the default for each value
    /// that is missing.
    pub open spec fn filled(
        x: Real,
        y: Real,
        width: Option<Real>,
        height: Option<Real>,
        z_index: Option<i64>,
    ) -> Geometry {
        Geometry {
            x,
            y,
            width: match width {
                Some(w) => w,
                None => Real { bits: DEFAULT_WIDTH_BITS },
            },
            height: match height {
                Some(h) => h,
                None => Real { bits: DEFAULT_HEIGHT_BITS },
            },
            z_index: match z_index {
                Some(z) => z,
                None => DEFAULT_Z_INDEX,
            },
        }
    }

    /// Fills in the defaults: width 200, height 150, stacking index 0.
    pub fn fill(
        x: Real,
        y: Real,
        width: Option<Real>,
        height: Option<Real>,
        z_index: Option<i64>,
    ) -> (g: Geometry)
        ensures
            g == Geometry::filled(x, y, width, height, z_index),
    {
        Geometry {
            x,
            y,
            width: match width {
                Some(w) => w,
                None => Real { bits: DEFAULT_WIDTH_BITS },
            },
            height: match height {
                Some(h) => h,
                None => Real { bits: DEFAULT_HEIGHT_BITS },
            },
            z_index: match z_index {
                Some(z) => z,
                None => DEFAULT_Z_INDEX,
            },
        }
    }
}

/// A note that is about to be stored, together with the group it is first
/// shared to.
#[derive(Debug, Clone)]
pub struct NewNote {
    pub title: Option<String>,
    pub content: Option<String>,
    pub color: String,
    pub geometry: Geometry,
    pub created_by: Option<i64>,
    pub group_id: i64,
    pub can_edit: bool,
}

} // verus!
