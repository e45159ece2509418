//! The authored description of a radiance volume.

use vstd::prelude::*;

verus! {

/// The largest number of nested cascades a volume may have. Cascades asked
/// for beyond this number are dropped without complaint.
pub const MAX_CASCADE_NUM: usize = 8;

/// The number of cascades that are built when `cascades` are asked for: the
/// smaller of `cascades` and `MAX_CASCADE_NUM`.
pub open spec fn effective_cascade_count(cascades: nat) -> nat {
    if cascades <= MAX_CASCADE_NUM as nat {
        cascades
    } else {
        MAX_CASCADE_NUM as nat
    }
}

/// A radiance volume as the scene author configures it. The volume is a cube
/// in the local frame of the transform it is attached to.
#[derive(Clone, Copy, Debug)]
pub struct GiVolume {
    /// Texels along one edge of a cascade.
    pub resolution: u32,
    /// Number of nested cascades asked for.
    pub cascades: u8,
    /// World-space extent of the innermost cascade, as the bit pattern of a
    /// single-precision number.
    pub size_bits: u32,
}

impl GiVolume {
    /// The number of cascades that are built for this volume.
    pub open spec fn spec_effective_cascades(self) -> nat {
        effective_cascade_count(self.cascades as nat)
    }

    /// The number of cascades that are built for this volume: the configured
    /// count, capped at `MAX_CASCADE_NUM`.
    pub fn effective_cascades(&self) -> (n: u32)
        ensures
            n as nat == self.spec_effective_cascades(),
            n <= MAX_CASCADE_NUM,
            self.cascades > MAX_CASCADE_NUM ==> n == MAX_CASCADE_NUM,
            self.cascades <= MAX_CASCADE_NUM ==> n == self.cascades,
    {
        clamp_cascades(self.cascades)
    }
}

/// Caps a configured cascade count at `MAX_CASCADE_NUM`.
pub fn clamp_cascades(cascades: u8) -> (n: u32)
    ensures
        n as nat == effective_cascade_count(cascades as nat),
        n <= MAX_CASCADE_NUM,
        cascades > MAX_CASCADE_NUM ==> n == MAX_CASCADE_NUM,
        cascades <= MAX_CASCADE_NUM ==> n == cascades,
{
    if cascades <= 8 {
        cascades as u32
    } else {
        8
    }
}

} // verus!
