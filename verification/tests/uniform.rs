use bevy::transform::components::GlobalTransform;
use voxel_gi::cascade::GpuGiCascades;
use voxel_gi::extract::ExtractedGiVolume;
use voxel_gi::uniform::GiCascadeMeta;
use voxel_gi::uniform::RECORD_STRIDE;

fn record_of(cascades: u8) -> GpuGiCascades {
    let volume = ExtractedGiVolume { transform: GlobalTransform::identity(), resolution: 64, cascades, size_bits: 1.0f32.to_bits() };
    GpuGiCascades::build(&volume, &Vec::new())
}

#[test]
fn stride_is_the_record_rounded_up_to_256() {
    assert_eq!(RECORD_STRIDE, 768);
    assert_eq!(RECORD_STRIDE % 256, 0);
    assert!(RECORD_STRIDE >= voxel_gi::cascade::RECORD_BYTES);
    assert!(RECORD_STRIDE - 256 < voxel_gi::cascade::RECORD_BYTES);
}

#[test]
fn new_buffer_is_empty() {
    let meta = GiCascadeMeta::default();
    assert_eq!(meta.len(), 0);
    assert_eq!(meta.view_cascades.inner.len(), 0);
}

#[test]
fn push_appends_and_returns_the_byte_offset() {
    let mut meta = GiCascadeMeta::default();
    assert_eq!(meta.push(&record_of(1)), 0);
    assert_eq!(meta.len(), 1);
    assert_eq!(meta.push(&record_of(2)), 768);
    assert_eq!(meta.push(&record_of(3)), 1536);
    assert_eq!(meta.len(), 3);
    assert_eq!(meta.view_cascades.inner.len(), 3);
}

#[test]
fn clear_drops_every_record() {
    let mut meta = GiCascadeMeta::default();
    meta.push(&record_of(1));
    meta.push(&record_of(1));
    assert_eq!(meta.len(), 2);
    meta.clear();
    assert_eq!(meta.len(), 0);
    assert_eq!(meta.push(&record_of(1)), 0);
}

#[test]
fn refill_leaves_exactly_the_records_written() {
    let mut meta = GiCascadeMeta::default();
    for _ in 0..5 {
        meta.push(&record_of(8));
    }
    let records = vec![record_of(1), record_of(2), record_of(3)];
    let offsets = meta.refill(&records);
    assert_eq!(offsets, vec![0, 768, 1536]);
    assert_eq!(meta.len(), 3);
}

#[test]
fn refill_is_the_same_every_frame() {
    let mut meta = GiCascadeMeta::default();
    let records = vec![record_of(3), record_of(3)];
    let first = meta.refill(&records);
    let len_after_first = meta.len();
    let second = meta.refill(&records);
    assert_eq!(first, second);
    assert_eq!(len_after_first, 2);
    assert_eq!(meta.len(), 2);
}

#[test]
fn refill_with_no_records_empties_the_buffer() {
    let mut meta = GiCascadeMeta::default();
    meta.push(&record_of(1));
    let offsets = meta.refill(&Vec::new());
    assert!(offsets.is_empty());
    assert_eq!(meta.len(), 0);
}
