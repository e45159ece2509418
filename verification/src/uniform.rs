//! The per-frame dynamic uniform buffer with one record of cascades per view.

use crate::cascade::rows_view;
use crate::cascade::spec_std140_rows;
use crate::cascade::CascadesModel;
use crate::cascade::GpuGiCascades;
use crate::cascade::CASCADE_ROWS;
use crate::cascade::RECORD_BYTES;
use crate::cascade::RECORD_ROWS;
use crate::volume::MAX_CASCADE_NUM;
use bevy::render::render_resource::std140::UVec4;
use bevy::render::render_resource::DynamicUniformVec;
use vstd::prelude::*;

verus! {

/// Distance in bytes between the starts of two records in the buffer: the
/// size of a record, rounded up to the alignment that dynamic offsets need.
pub const RECORD_STRIDE: usize = 768;

/// The engine's `DynamicUniformVec`, holding records of 41 rows of four
/// words. The engine keeps the records until it is told to upload them; it
/// offers no way to read them back.
#[verifier::external_body]
pub struct CascadeUniformVec {
    /// The engine's buffer, for the caller to reserve and upload.
    pub inner: DynamicUniformVec<[UVec4; 41]>,
}

/// The records that a buffer holds, oldest first, each as its rows of four
/// words.
pub uninterp spec fn uniform_records(buffer: CascadeUniformVec) -> Seq<Seq<Seq<u32>>>;

/// `DynamicUniformVec::default`: a new buffer holds no record.
#[verifier::external_body]
fn uniform_new() -> (buffer: CascadeUniformVec)
    ensures
        uniform_records(buffer) == Seq::<Seq<Seq<u32>>>::empty(),
{
    CascadeUniformVec { inner: DynamicUniformVec::default() }
}

/// `DynamicUniformVec::len`: the number of records held.
#[verifier::external_body]
fn uniform_len(buffer: &CascadeUniformVec) -> (len: usize)
    ensures
        len == uniform_records(*buffer).len(),
{
    buffer.inner.len()
}

/// `DynamicUniformVec::clear`: drops every record.
#[verifier::external_body]
fn uniform_clear(buffer: &mut CascadeUniformVec)
    ensures
        uniform_records(*final(buffer)) == Seq::<Seq<Seq<u32>>>::empty(),
{
    buffer.inner.clear()
}

/// `DynamicUniformVec::push`: appends one record behind those held, and
/// returns the byte offset at which the record will lie: the number of
/// records held before, times the stride, cut to 32 bits. The stride is the
/// 656 bytes of 41 rows, rounded up to the 256 bytes that the engine aligns
/// dynamic uniforms to.
#[verifier::external_body]
fn uniform_push(buffer: &mut CascadeUniformVec, rows: &[[u32; 4]; 41]) -> (offset: u32)
    ensures
        uniform_records(*final(buffer)) == uniform_records(*old(buffer)).push(rows_view(*rows)),
        offset == spec_record_offset(uniform_records(*old(buffer)).len()),
{
    buffer.inner.push(rows.map(|row| UVec4 { x: row[0], y: row[1], z: row[2], w: row[3] }))
}

/// The byte offset of the record at `index`, as a dynamic offset carries it:
/// the index times the stride, cut to 32 bits.
pub open spec fn spec_record_offset(index: nat) -> u32 {
    ((index * RECORD_STRIDE) % 0x1_0000_0000) as u32
}

/// The stride is the size of a record rounded up to the 256 bytes that
/// dynamic offsets are aligned to, and a record is its rows of 16 bytes.
pub proof fn lemma_stride_holds_a_record()
    ensures
        RECORD_ROWS == 1 + MAX_CASCADE_NUM * CASCADE_ROWS,
        RECORD_BYTES == 16 * RECORD_ROWS,
        RECORD_STRIDE % 256 == 0,
        RECORD_BYTES <= RECORD_STRIDE < RECORD_BYTES + 256,
{
}

/// Every offset that is handed out is aligned to 256 bytes, and as long as
/// offsets fit into 32 bits, each record begins one stride behind the one
/// before it, so that no two records overlap.
pub proof fn lemma_record_offsets(index: nat)
    ensures
        spec_record_offset(index) % 256 == 0,
        (index + 1) * RECORD_STRIDE < 0x1_0000_0000 ==> spec_record_offset(index + 1)
            == spec_record_offset(index) + RECORD_STRIDE,
        spec_record_offset(0) == 0,
{
    let bytes = index * RECORD_STRIDE;
    assert(bytes == (index * 3) * 256) by (nonlinear_arith)
        requires
            bytes == index * 768,
    ;
    assert(bytes % 0x1_0000_0000 % 256 == 0) by {
        vstd::arithmetic::div_mod::lemma_mod_multiples_basic((index * 3) as int, 256);
        vstd::arithmetic::div_mod::lemma_mod_mod(bytes as int, 256, 0x100_0000);
    }
    assert((index + 1) * RECORD_STRIDE == index * RECORD_STRIDE + RECORD_STRIDE) by (nonlinear_arith);
    assert(index * RECORD_STRIDE >= 0) by (nonlinear_arith);
}

/// The uniform blocks of `records`, one after the other.
pub open spec fn spec_uniform_blocks(records: Seq<CascadesModel>) -> Seq<Seq<Seq<u32>>> {
    Seq::new(records.len(), |i: int| spec_std140_rows(records[i]))
}

/// The cascade records of the frame's views.
pub struct GiCascadeMeta {
    pub view_cascades: CascadeUniformVec,
}

impl Default for GiCascadeMeta {
    /// A buffer without a record.
    fn default() -> (meta: Self)
        ensures
            meta.records() == Seq::<Seq<Seq<u32>>>::empty(),
    {
        GiCascadeMeta { view_cascades: uniform_new() }
    }
}

impl GiCascadeMeta {
    /// The uniform blocks that the buffer holds, oldest first.
    pub open spec fn records(&self) -> Seq<Seq<Seq<u32>>> {
        uniform_records(self.view_cascades)
    }

    /// The number of records that the buffer holds.
    pub fn len(&self) -> (len: usize)
        ensures
            len == self.records().len(),
    {
        uniform_len(&self.view_cascades)
    }

    /// Drops every record that the buffer holds.
    pub fn clear(&mut self)
        ensures
            final(self).records() == Seq::<Seq<Seq<u32>>>::empty(),
    {
        uniform_clear(&mut self.view_cascades);
    }

    /// Appends the uniform block of `record` and returns the byte offset at
    /// which it will lie in the buffer.
    pub fn push(&mut self, record: &GpuGiCascades) -> (offset: u32)
        ensures
            final(self).records() == old(self).records().push(spec_std140_rows(record@)),
            offset == spec_record_offset(old(self).records().len()),
    {
        let rows = record.std140_rows();
        uniform_push(&mut self.view_cascades, &rows)
    }

    /// Starts the frame's buffer afresh and writes `records` into it, in
    /// their order. Whatever the buffer held before, it then holds the
    /// uniform blocks of `records` and nothing else. Returns the byte offset
    /// of each record.
    pub fn refill(&mut self, records: &Vec<GpuGiCascades>) -> (offsets: Vec<u32>)
        ensures
            final(self).records() == spec_uniform_blocks(records@.map_values(|r: GpuGiCascades| r@)),
            final(self).records().len() == records@.len(),
            offsets@.len() == records@.len(),
            forall|i: int| 0 <= i < offsets@.len() ==> offsets@[i] == spec_record_offset(i as nat),
    {
        self.clear();
        let mut offsets: Vec<u32> = Vec::new();
        let mut index: usize = 0;
        while index < records.len()
            invariant
                index <= records@.len(),
                self.records() == spec_uniform_blocks(
                    records@.map_values(|r: GpuGiCascades| r@).take(index as int),
                ),
                offsets@.len() == index,
                forall|i: int| 0 <= i < index ==> offsets@[i] == spec_record_offset(i as nat),
            decreases records@.len() - index,
        {
            let ghost before = self.records();
            let offset = self.push(&records[index]);
            offsets.push(offset);
            proof {
                let models = records@.map_values(|r: GpuGiCascades| r@);
                assert(before.push(spec_std140_rows(records@[index as int]@)) =~= spec_uniform_blocks(
                    models.take(index + 1),
                ));
            }
            index = index + 1;
        }
        proof {
            let models = records@.map_values(|r: GpuGiCascades| r@);
            assert(models.take(index as int) =~= models);
        }
        offsets
    }
}

} // verus!
