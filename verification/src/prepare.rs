//! The per-frame preparation of the volume for the views that render it.

use crate::cascade::spec_gpu_cascades;
use crate::cascade::spec_std140_rows;
use crate::cascade::GpuGiCascades;
use crate::error::GiError;
use crate::extract::ExtractedGiVolume;
use crate::texture::spec_volume_texture;
use crate::texture::volume_texture_descriptor;
use crate::texture::DeviceLimits;
use crate::texture::VolumeTextureDescriptor;
use crate::uniform::spec_record_offset;
use crate::uniform::GiCascadeMeta;
use bevy::ecs::entity::Entity;
use vstd::prelude::*;

verus! {

/// The engine's `Entity`: the name of a view in the render world. The
/// library carries it along and never looks inside.
#[verifier::external_type_specification]
#[verifier::external_body]
pub struct ExEntity(Entity);

/// What one view needs to render the volume: the texture to ask the texture
/// cache for, and the byte offset of the view's cascade record in the
/// uniform buffer.
#[derive(Clone, Copy, Debug)]
pub struct ViewGiVolumes {
    pub view: Entity,
    pub volume_texture: VolumeTextureDescriptor,
    pub gpu_volume_binding_index: u32,
}

/// The texture of the frame's volume on a device that takes edges up to
/// `limit`. A frame without a volume has no texture and no fault.
pub open spec fn spec_frame_texture(volume: Option<ExtractedGiVolume>, limit: u32) -> Result<
    Option<VolumeTextureDescriptor>,
    GiError,
> {
    match volume {
        None => Ok(None),
        Some(v) => match spec_volume_texture(v.resolution, v.spec_effective_cascades(), limit) {
            Ok(texture) => Ok(Some(texture)),
            Err(fault) => Err(fault),
        },
    }
}

/// What preparation hands to the views of a frame: nothing in a frame
/// without a volume, and else for each view, in the order of `views`, the
/// volume's texture and the offset of the view's own record.
pub open spec fn spec_prepared_views(texture: Option<VolumeTextureDescriptor>, views: Seq<Entity>) -> Seq<
    ViewGiVolumes,
> {
    match texture {
        None => Seq::empty(),
        Some(t) => Seq::new(
            views.len(),
            |i: int|
                ViewGiVolumes {
                    view: views[i],
                    volume_texture: t,
                    gpu_volume_binding_index: spec_record_offset(i as nat),
                },
        ),
    }
}

/// What the uniform buffer holds after preparation: one uniform block of the
/// volume's cascades for each view, and nothing where there is no volume or
/// the volume is at fault.
pub open spec fn spec_prepared_records(
    volume: Option<ExtractedGiVolume>,
    projections: Seq<[u32; 16]>,
    view_count: nat,
    limit: u32,
) -> Seq<Seq<Seq<u32>>> {
    match (volume, spec_frame_texture(volume, limit)) {
        (Some(v), Ok(_)) => Seq::new(
            view_count,
            |i: int|
                spec_std140_rows(
                    spec_gpu_cascades(v.resolution, v.spec_effective_cascades(), projections),
                ),
        ),
        _ => Seq::empty(),
    }
}

/// Prepares the frame's volume for `views`.
///
/// The uniform buffer is started afresh whatever happens, so that nothing of
/// an earlier frame stays in it. A frame without a volume prepares nothing.
/// A volume at fault stops the preparation before any view is given a
/// texture to allocate. Otherwise every view is given the same texture
/// descriptor and its own cascade record, whose cascade `i` takes its
/// world-to-volume matrix from `projections[i]`, or the identity where
/// `projections` is too short; entries beyond the last cascade are not read.
pub fn prepare_gi_cascades(
    cascade_meta: &mut GiCascadeMeta,
    volume: Option<ExtractedGiVolume>,
    projections: &Vec<[u32; 16]>,
    views: &Vec<Entity>,
    limits: &DeviceLimits,
) -> (prepared: Result<Vec<ViewGiVolumes>, GiError>)
    ensures
        match spec_frame_texture(volume, limits.max_texture_dimension_3d) {
            Ok(texture) => prepared is Ok && prepared->Ok_0@ == spec_prepared_views(texture, views@),
            Err(fault) => prepared == Err::<Vec<ViewGiVolumes>, GiError>(fault),
        },
        volume is Some && volume->Some_0.resolution == 0 ==> prepared == Err::<
            Vec<ViewGiVolumes>,
            GiError,
        >(GiError::ZeroResolution),
        final(cascade_meta).records() == spec_prepared_records(
            volume,
            projections@,
            views@.len(),
            limits.max_texture_dimension_3d,
        ),
        prepared is Ok && volume is Some ==> final(cascade_meta).records().len() == views@.len(),
{
    cascade_meta.clear();
    let volume = match volume {
        None => {
            return Ok(Vec::new());
        },
        Some(v) => v,
    };
    let texture = match volume_texture_descriptor(&volume, limits) {
        Err(fault) => {
            return Err(fault);
        },
        Ok(t) => t,
    };
    let record = GpuGiCascades::build(&volume, projections);
    let mut records: Vec<GpuGiCascades> = Vec::new();
    let mut index: usize = 0;
    while index < views.len()
        invariant
            index <= views@.len(),
            records@.len() == index,
            forall|i: int| 0 <= i < index ==> records@[i]@ == record@,
        decreases views@.len() - index,
    {
        records.push(record);
        index = index + 1;
    }
    let offsets = cascade_meta.refill(&records);
    let mut prepared: Vec<ViewGiVolumes> = Vec::new();
    let mut index: usize = 0;
    while index < views.len()
        invariant
            index <= views@.len(),
            offsets@.len() == views@.len(),
            forall|i: int| 0 <= i < offsets@.len() ==> offsets@[i] == spec_record_offset(i as nat),
            prepared@.len() == index,
            forall|i: int|
                0 <= i < index ==> prepared@[i] == spec_prepared_views(Some(texture), views@)[i],
        decreases views@.len() - index,
    {
        prepared.push(
            ViewGiVolumes {
                view: views[index],
                volume_texture: texture,
                gpu_volume_binding_index: offsets[index],
            },
        );
        index = index + 1;
    }
    proof {
        assert(prepared@ =~= spec_prepared_views(Some(texture), views@));
        assert(cascade_meta.records() =~= spec_prepared_records(
            Some(volume),
            projections@,
            views@.len(),
            limits.max_texture_dimension_3d,
        ));
    }
    Ok(prepared)
}

} // verus!
