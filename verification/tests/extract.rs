use bevy::math::Vec3;
use bevy::transform::components::GlobalTransform;
use voxel_gi::extract::extract_gi_cascades;
use voxel_gi::extract::ExtractedGiVolume;
use voxel_gi::volume::GiVolume;

#[test]
fn empty_scene_yields_no_snapshot() {
    let volumes: Vec<(GiVolume, GlobalTransform)> = Vec::new();
    assert!(extract_gi_cascades(&volumes).is_none());
}

#[test]
fn single_volume_is_copied_with_its_transform() {
    let transform = GlobalTransform::from_xyz(1.0, 2.0, 3.0);
    let volumes = vec![(GiVolume { resolution: 64, cascades: 3, size_bits: 1.0f32.to_bits() }, transform)];
    let snapshot = extract_gi_cascades(&volumes).unwrap();
    assert_eq!(snapshot.resolution, 64);
    assert_eq!(snapshot.cascades, 3);
    assert_eq!(f32::from_bits(snapshot.size_bits), 1.0);
    assert_eq!(snapshot.transform, transform);
    assert_eq!(snapshot.transform.translation, Vec3::new(1.0, 2.0, 3.0));
    assert_eq!(snapshot.effective_cascades(), 3);
}

#[test]
fn only_the_first_volume_is_honoured() {
    let first = GlobalTransform::from_xyz(1.0, 0.0, 0.0);
    let second = GlobalTransform::from_xyz(0.0, 5.0, 0.0);
    let volumes = vec![
        (GiVolume { resolution: 32, cascades: 2, size_bits: 2.0f32.to_bits() }, first),
        (GiVolume { resolution: 128, cascades: 7, size_bits: 8.0f32.to_bits() }, second),
    ];
    let snapshot = extract_gi_cascades(&volumes).unwrap();
    assert_eq!(snapshot.resolution, 32);
    assert_eq!(snapshot.cascades, 2);
    assert_eq!(f32::from_bits(snapshot.size_bits), 2.0);
    assert_eq!(snapshot.transform, first);
}

#[test]
fn extraction_is_repeatable_on_an_unchanged_scene() {
    let volumes = vec![(
        GiVolume { resolution: 16, cascades: 9, size_bits: 0.5f32.to_bits() },
        GlobalTransform::identity(),
    )];
    let a = extract_gi_cascades(&volumes).unwrap();
    let b = extract_gi_cascades(&volumes).unwrap();
    assert_eq!(a.resolution, b.resolution);
    assert_eq!(a.cascades, b.cascades);
    assert_eq!(a.size_bits, b.size_bits);
    assert_eq!(a.transform, b.transform);
}

#[test]
fn snapshot_keeps_the_configured_count_and_clamps_the_effective_one() {
    let snapshot = ExtractedGiVolume { transform: GlobalTransform::identity(), resolution: 2048, cascades: 200, size_bits: 1.0f32.to_bits() };
    assert_eq!(snapshot.resolution, 2048);
    assert_eq!(snapshot.cascades, 200);
    assert_eq!(snapshot.effective_cascades(), 8);
}

#[test]
fn authored_resolution_reaches_the_practical_limit() {
    let volumes = vec![(
        GiVolume { resolution: 2048, cascades: 1, size_bits: 1.0f32.to_bits() },
        GlobalTransform::identity(),
    )];
    assert_eq!(extract_gi_cascades(&volumes).unwrap().resolution, 2048);
}
