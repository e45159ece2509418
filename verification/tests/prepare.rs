use bevy::ecs::entity::Entity;
use bevy::transform::components::GlobalTransform;
use voxel_gi::error::GiError;
use voxel_gi::extract::extract_gi_cascades;
use voxel_gi::extract::ExtractedGiVolume;
use voxel_gi::prepare::prepare_gi_cascades;
use voxel_gi::texture::DeviceLimits;
use voxel_gi::texture::VolumeDimension;
use voxel_gi::texture::VolumeFormat;
use voxel_gi::texture::VolumeTextureDescriptor;
use voxel_gi::texture::VolumeUsage;
use voxel_gi::uniform::GiCascadeMeta;
use voxel_gi::volume::GiVolume;

fn prepared_snapshot(resolution: u32, cascades: u8) -> ExtractedGiVolume {
    ExtractedGiVolume { transform: GlobalTransform::identity(), resolution, cascades, size_bits: 1.0f32.to_bits() }
}

fn device() -> DeviceLimits {
    DeviceLimits { max_texture_dimension_3d: 2048, max_bind_groups: 8 }
}

fn some_views(count: u32) -> Vec<Entity> {
    (0..count).map(|i| Entity::from_raw(10 + i)).collect()
}

#[test]
fn one_volume_of_64_with_three_cascades() {
    let mut meta = GiCascadeMeta::default();
    let views = some_views(2);
    let prepared =
        prepare_gi_cascades(&mut meta, Some(prepared_snapshot(64, 3)), &Vec::new(), &views, &device()).unwrap();
    assert_eq!(prepared.len(), 2);
    for (i, view) in prepared.iter().enumerate() {
        assert_eq!(view.view, views[i]);
        assert_eq!(
            view.volume_texture,
            VolumeTextureDescriptor { width: 64, height: 64, depth: 192, mip_level_count: 7, sample_count: 1, dimension: VolumeDimension::D3, format: VolumeFormat::Rgba32Float, usage: VolumeUsage { sampled: true, storage: true } }
        );
        assert_eq!(view.gpu_volume_binding_index, 768 * i as u32);
    }
    assert_eq!(meta.len(), 2);
}

#[test]
fn zero_resolution_stops_preparation() {
    let mut meta = GiCascadeMeta::default();
    let result = prepare_gi_cascades(&mut meta, Some(prepared_snapshot(0, 3)), &Vec::new(), &some_views(4), &device());
    assert_eq!(result.err(), Some(GiError::ZeroResolution));
    assert_eq!(meta.len(), 0);
}

#[test]
fn zero_resolution_stops_preparation_without_views_too() {
    let mut meta = GiCascadeMeta::default();
    let result = prepare_gi_cascades(&mut meta, Some(prepared_snapshot(0, 3)), &Vec::new(), &Vec::new(), &device());
    assert_eq!(result.err(), Some(GiError::ZeroResolution));
}

#[test]
fn zero_cascades_stop_preparation() {
    let mut meta = GiCascadeMeta::default();
    let result = prepare_gi_cascades(&mut meta, Some(prepared_snapshot(64, 0)), &Vec::new(), &some_views(1), &device());
    assert_eq!(result.err(), Some(GiError::ZeroCascades));
    assert_eq!(meta.len(), 0);
}

#[test]
fn oversized_texture_stops_preparation() {
    let mut meta = GiCascadeMeta::default();
    let result = prepare_gi_cascades(&mut meta, Some(prepared_snapshot(1024, 8)), &Vec::new(), &some_views(1), &device());
    assert_eq!(result.err(), Some(GiError::TextureTooLarge { requested: 8192, limit: 2048 }));
    assert_eq!(meta.len(), 0);
}

#[test]
fn a_fault_leaves_nothing_of_the_frame_before() {
    let mut meta = GiCascadeMeta::default();
    prepare_gi_cascades(&mut meta, Some(prepared_snapshot(64, 3)), &Vec::new(), &some_views(3), &device()).unwrap();
    assert_eq!(meta.len(), 3);
    let result = prepare_gi_cascades(&mut meta, Some(prepared_snapshot(0, 3)), &Vec::new(), &some_views(3), &device());
    assert!(result.is_err());
    assert_eq!(meta.len(), 0);
}

#[test]
fn no_volume_prepares_nothing() {
    let mut meta = GiCascadeMeta::default();
    prepare_gi_cascades(&mut meta, Some(prepared_snapshot(64, 3)), &Vec::new(), &some_views(3), &device()).unwrap();
    let prepared = prepare_gi_cascades(&mut meta, None, &Vec::new(), &some_views(3), &device()).unwrap();
    assert!(prepared.is_empty());
    assert_eq!(meta.len(), 0);
}

#[test]
fn no_views_prepare_nothing() {
    let mut meta = GiCascadeMeta::default();
    let prepared =
        prepare_gi_cascades(&mut meta, Some(prepared_snapshot(64, 3)), &Vec::new(), &Vec::new(), &device()).unwrap();
    assert!(prepared.is_empty());
    assert_eq!(meta.len(), 0);
}

#[test]
fn constant_view_count_gives_the_same_buffer_every_frame() {
    let mut meta = GiCascadeMeta::default();
    let views = some_views(4);
    let mut offsets_per_frame: Vec<Vec<u32>> = Vec::new();
    for _ in 0..3 {
        let prepared =
            prepare_gi_cascades(&mut meta, Some(prepared_snapshot(32, 2)), &Vec::new(), &views, &device()).unwrap();
        assert_eq!(meta.len(), 4);
        offsets_per_frame.push(prepared.iter().map(|p| p.gpu_volume_binding_index).collect());
    }
    assert_eq!(offsets_per_frame[0], vec![0, 768, 1536, 2304]);
    assert_eq!(offsets_per_frame[0], offsets_per_frame[1]);
    assert_eq!(offsets_per_frame[1], offsets_per_frame[2]);
}

#[test]
fn shrinking_view_count_leaves_no_stale_record() {
    let mut meta = GiCascadeMeta::default();
    prepare_gi_cascades(&mut meta, Some(prepared_snapshot(32, 2)), &Vec::new(), &some_views(6), &device()).unwrap();
    assert_eq!(meta.len(), 6);
    prepare_gi_cascades(&mut meta, Some(prepared_snapshot(32, 2)), &Vec::new(), &some_views(2), &device()).unwrap();
    assert_eq!(meta.len(), 2);
}

#[test]
fn extract_then_prepare() {
    let scene = vec![(
        GiVolume { resolution: 64, cascades: 3, size_bits: 1.0f32.to_bits() },
        GlobalTransform::from_xyz(0.0, 1.0, 0.0),
    )];
    let mut meta = GiCascadeMeta::default();
    let prepared =
        prepare_gi_cascades(&mut meta, extract_gi_cascades(&scene), &Vec::new(), &some_views(1), &device()).unwrap();
    assert_eq!(prepared.len(), 1);
    assert_eq!(prepared[0].volume_texture.depth, 192);
    assert_eq!(prepared[0].gpu_volume_binding_index, 0);
}

#[test]
fn empty_scene_prepares_nothing() {
    let scene: Vec<(GiVolume, GlobalTransform)> = Vec::new();
    let mut meta = GiCascadeMeta::default();
    let prepared =
        prepare_gi_cascades(&mut meta, extract_gi_cascades(&scene), &Vec::new(), &some_views(3), &device()).unwrap();
    assert!(prepared.is_empty());
    assert_eq!(meta.len(), 0);
}
