//! The render-side snapshot of the scene's radiance volume.

use crate::volume::effective_cascade_count;
use crate::volume::clamp_cascades;
use crate::volume::GiVolume;
use crate::volume::MAX_CASCADE_NUM;
use bevy::transform::components::GlobalTransform;
use vstd::prelude::*;

verus! {

/// The engine's `GlobalTransform`: where an entity stands in the world. The
/// library carries it along and never looks inside.
#[verifier::external_type_specification]
#[verifier::external_body]
pub struct ExGlobalTransform(GlobalTransform);

/// The volume that a frame renders with: the authored description together
/// with the world transform it had when the frame was extracted.
#[derive(Clone, Copy, Debug)]
pub struct ExtractedGiVolume {
    /// Origin, orientation and scale of the volume in the world.
    pub transform: GlobalTransform,
    /// Texels along one edge of a cascade.
    pub resolution: u32,
    /// Number of nested cascades asked for.
    pub cascades: u8,
    /// World-space extent of the innermost cascade, as the bit pattern of a
    /// single-precision number.
    pub size_bits: u32,
}

impl ExtractedGiVolume {
    /// The snapshot of one authored volume and the transform it stands at.
    pub open spec fn of(volume: GiVolume, transform: GlobalTransform) -> Self {
        ExtractedGiVolume {
            transform,
            resolution: volume.resolution,
            cascades: volume.cascades,
            size_bits: volume.size_bits,
        }
    }

    /// The number of cascades that are built for this volume.
    pub open spec fn spec_effective_cascades(self) -> nat {
        effective_cascade_count(self.cascades as nat)
    }

    /// The number of cascades that are built for this volume: the configured
    /// count, capped at `MAX_CASCADE_NUM`.
    pub fn effective_cascades(&self) -> (n: u32)
        ensures
            n as nat == self.spec_effective_cascades(),
            n <= MAX_CASCADE_NUM,
            self.cascades > MAX_CASCADE_NUM ==> n == MAX_CASCADE_NUM,
            self.cascades <= MAX_CASCADE_NUM ==> n == self.cascades,
    {
        clamp_cascades(self.cascades)
    }
}

/// What extraction publishes for a scene that holds `volumes`, in the order
/// in which the scene yields them: the snapshot of the first one, and nothing
/// for a scene without a volume.
pub open spec fn spec_extract(volumes: Seq<(GiVolume, GlobalTransform)>) -> Option<ExtractedGiVolume> {
    if volumes.len() == 0 {
        None
    } else {
        Some(ExtractedGiVolume::of(volumes[0].0, volumes[0].1))
    }
}

/// Takes the frame's snapshot out of the scene's volumes. Only the first
/// volume is honoured; a scene without a volume yields no snapshot.
pub fn extract_gi_cascades(volumes: &Vec<(GiVolume, GlobalTransform)>) -> (snapshot: Option<ExtractedGiVolume>)
    ensures
        snapshot == spec_extract(volumes@),
        snapshot is None <==> volumes@.len() == 0,
{
    if volumes.len() == 0 {
        None
    } else {
        let (volume, transform) = volumes[0];
        Some(
            ExtractedGiVolume {
                transform,
                resolution: volume.resolution,
                cascades: volume.cascades,
                size_bits: volume.size_bits,
            },
        )
    }
}

} // verus!
