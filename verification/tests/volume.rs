use voxel_gi::volume::clamp_cascades;
use voxel_gi::volume::GiVolume;
use voxel_gi::volume::MAX_CASCADE_NUM;

fn authored(cascades: u8) -> GiVolume {
    GiVolume { resolution: 64, cascades, size_bits: 1.0f32.to_bits() }
}

#[test]
fn capacity_is_eight() {
    assert_eq!(MAX_CASCADE_NUM, 8);
}

#[test]
fn cascades_above_capacity_are_clamped() {
    for cascades in 9..=255u8 {
        assert_eq!(authored(cascades).effective_cascades(), 8);
        assert_eq!(clamp_cascades(cascades), 8);
    }
}

#[test]
fn cascades_up_to_capacity_are_kept() {
    for cascades in 0..=8u8 {
        assert_eq!(authored(cascades).effective_cascades(), cascades as u32);
        assert_eq!(clamp_cascades(cascades), cascades as u32);
    }
}

#[test]
fn clamp_does_not_depend_on_resolution_or_size() {
    let a = GiVolume { resolution: 0, cascades: 200, size_bits: 0 };
    let b = GiVolume { resolution: 255, cascades: 200, size_bits: 4.0f32.to_bits() };
    assert_eq!(a.effective_cascades(), b.effective_cascades());
}
