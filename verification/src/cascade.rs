//! Cascade geometry and the per-cascade records that the GPU reads.

use crate::extract::ExtractedGiVolume;
use crate::volume::effective_cascade_count;
use crate::volume::MAX_CASCADE_NUM;
use vstd::arithmetic::power2::lemma2_to64;
use vstd::arithmetic::power2::lemma_pow2_unfold;
use vstd::arithmetic::power2::pow2;
use vstd::prelude::*;

verus! {

/// Bit pattern of the single-precision number one.
pub const ONE_BITS: u32 = 0x3F80_0000;

/// Number of 16-byte rows that the record of one cascade takes in the
/// uniform block: four matrix columns and one row for the two integers.
pub const CASCADE_ROWS: usize = 5;

/// Number of 16-byte rows that the record of all cascades takes: one row for
/// the count, then `MAX_CASCADE_NUM` cascade records.
pub const RECORD_ROWS: usize = 41;

/// Size in bytes of the record of all cascades.
pub const RECORD_BYTES: usize = 656;

/// How many times larger than the innermost cascade the cascade `index` is,
/// along each axis.
pub open spec fn cascade_scale(index: nat) -> nat {
    pow2(index)
}

/// World extent that cascade `index` covers, for an innermost cascade that
/// covers `size`. The result is in the unit of `size`.
pub open spec fn cascade_extent(size: int, index: nat) -> int {
    size * cascade_scale(index)
}

/// A quotient of two integers.
pub struct Ratio {
    pub num: int,
    pub den: int,
}

/// World size of one texel of cascade `index`, for an innermost cascade that
/// covers `size` with `resolution` texels: the cascade's extent divided by
/// the resolution.
pub open spec fn cascade_texel_size(size: int, index: nat, resolution: int) -> Ratio {
    Ratio { num: cascade_extent(size, index), den: resolution }
}

/// Each cascade covers twice the extent of the one inside it, and at the same
/// resolution its texels are twice as large.
pub proof fn lemma_cascade_doubles(size: int, resolution: int, index: nat)
    ensures
        cascade_scale(index + 1) == 2 * cascade_scale(index),
        cascade_extent(size, index + 1) == 2 * cascade_extent(size, index),
        cascade_texel_size(size, index + 1, resolution).num == 2 * cascade_texel_size(
            size,
            index,
            resolution,
        ).num,
        cascade_texel_size(size, index + 1, resolution).den == cascade_texel_size(
            size,
            index,
            resolution,
        ).den,
{
    lemma_pow2_unfold(index + 1);
    assert(size * (2 * pow2(index)) == 2 * (size * pow2(index))) by (nonlinear_arith);
}

/// The innermost cascade covers exactly the configured size.
pub proof fn lemma_innermost_extent(size: int)
    ensures
        cascade_scale(0) == 1,
        cascade_extent(size, 0) == size,
{
    lemma2_to64();
    let one = pow2(0);
    assert(size * one == size) by (nonlinear_arith)
        requires
            one == 1,
    ;
}

/// The geometry of one cascade, free of the volume's placement: the cascade
/// covers `scale` times the configured size along each axis, divided among
/// `resolution` texels.
#[derive(Clone, Copy, Debug, PartialEq, Eq, Structural)]
pub struct CascadeGeometry {
    /// Position of the cascade, counted outwards from the innermost one.
    pub index: u32,
    /// Extent of the cascade in multiples of the configured size.
    pub scale: u32,
    /// Texels along one edge.
    pub resolution: u32,
}

impl CascadeGeometry {
    /// World extent that the cascade covers, for a configured size of `size`.
    pub open spec fn extent(self, size: int) -> int {
        size * self.scale
    }

    /// World size of one texel of the cascade, for a configured size of
    /// `size`.
    pub open spec fn texel_size(self, size: int) -> Ratio {
        Ratio { num: self.extent(size), den: self.resolution as int }
    }
}

/// The geometry that is built for a cascade covers the configured size
/// times two to the power of the cascade's index, and its texels are that
/// extent divided by the resolution.
pub proof fn lemma_geometry_extent(resolution: u32, index: nat, size: int)
    requires
        index < MAX_CASCADE_NUM,
    ensures
        spec_cascade_geometry(resolution, index as int).extent(size) == cascade_extent(size, index),
        spec_cascade_geometry(resolution, index as int).texel_size(size) == cascade_texel_size(
            size,
            index,
            resolution as int,
        ),
{
    lemma2_to64();
}

/// The geometry of cascade `index` at `resolution` texels per edge.
pub open spec fn spec_cascade_geometry(resolution: u32, index: int) -> CascadeGeometry {
    CascadeGeometry { index: index as u32, scale: cascade_scale(index as nat) as u32, resolution }
}

/// The scale of cascade `index`, for the cascades that can exist.
pub fn scale_of_cascade(index: u32) -> (scale: Option<u32>)
    ensures
        scale is Some <==> index < MAX_CASCADE_NUM,
        scale is Some ==> scale->Some_0 == cascade_scale(index as nat),
{
    if index >= 8 {
        return None;
    }
    let mut scale: u32 = 1;
    let mut level: u32 = 0;
    proof {
        lemma2_to64();
    }
    while level < index
        invariant
            level <= index < 8,
            scale == pow2(level as nat),
            scale <= 128,
        decreases index - level,
    {
        proof {
            lemma_pow2_unfold((level + 1) as nat);
            lemma2_to64();
        }
        scale = scale * 2;
        level = level + 1;
    }
    Some(scale)
}

/// The geometry of every cascade that is built for `volume`, innermost first.
pub fn cascade_geometry(volume: &ExtractedGiVolume) -> (levels: Vec<CascadeGeometry>)
    ensures
        levels@.len() == volume.spec_effective_cascades(),
        forall|i: int|
            0 <= i < levels@.len() ==> levels@[i] == spec_cascade_geometry(volume.resolution, i),
{
    let count = volume.effective_cascades();
    let resolution = volume.resolution;
    let mut levels: Vec<CascadeGeometry> = Vec::new();
    let mut index: u32 = 0;
    while index < count
        invariant
            index <= count <= 8,
            levels@.len() == index,
            forall|i: int| 0 <= i < index ==> levels@[i] == spec_cascade_geometry(resolution, i),
        decreases count - index,
    {
        let scale = match scale_of_cascade(index) {
            Some(s) => s,
            None => 1,
        };
        levels.push(CascadeGeometry { index, scale, resolution });
        index = index + 1;
    }
    levels
}

/// The words of a four-by-four identity matrix, column after column.
pub open spec fn identity_projection() -> Seq<u32> {
    Seq::new(16, |i: int| if i % 5 == 0 { ONE_BITS } else { 0u32 })
}

/// The projection that cascade `index` gets from the caller's list: the entry
/// at `index`, and the identity where the list is too short.
pub open spec fn projection_or_identity(projections: Seq<[u32; 16]>, index: int) -> Seq<u32> {
    if 0 <= index < projections.len() {
        projections[index]@
    } else {
        identity_projection()
    }
}

/// What a `GpuGiCascade` stands for.
pub struct CascadeModel {
    /// The sixteen words of the world-to-volume matrix, column after column.
    pub projection: Seq<u32>,
    /// Texels along one edge of the cascade.
    pub resolution: u32,
    /// Which part of the volume texture holds the cascade.
    pub texture_index: u32,
}

/// What a `GpuGiCascades` stands for.
pub struct CascadesModel {
    /// Number of records in use.
    pub num_cascades: u32,
    /// All `MAX_CASCADE_NUM` records, used or not.
    pub cascades: Seq<CascadeModel>,
}

/// The record of a cascade that is not in use: identity projection, no
/// texels, first part of the texture.
pub open spec fn unused_cascade() -> CascadeModel {
    CascadeModel { projection: identity_projection(), resolution: 0, texture_index: 0 }
}

/// The record of cascade `index` of a volume with `resolution` texels per
/// edge.
pub open spec fn used_cascade(resolution: u32, projections: Seq<[u32; 16]>, index: int) -> CascadeModel {
    CascadeModel {
        projection: projection_or_identity(projections, index),
        resolution,
        texture_index: index as u32,
    }
}

/// The records of a volume with `resolution` texels per edge and `count`
/// cascades in use.
pub open spec fn spec_gpu_cascades(resolution: u32, count: nat, projections: Seq<[u32; 16]>) -> CascadesModel {
    CascadesModel {
        num_cascades: count as u32,
        cascades: Seq::new(
            MAX_CASCADE_NUM as nat,
            |i: int|
                if i < count {
                    used_cascade(resolution, projections, i)
                } else {
                    unused_cascade()
                },
        ),
    }
}

/// The GPU's record of one cascade: the world-to-volume matrix as the bit
/// patterns of its sixteen single-precision entries, column after column, the
/// resolution, and the part of the volume texture that holds the cascade.
#[derive(Clone, Copy, Debug)]
pub struct GpuGiCascade {
    pub projection: [u32; 16],
    pub resolution: u32,
    pub texture_index: u32,
}

impl View for GpuGiCascade {
    type V = CascadeModel;

    open spec fn view(&self) -> CascadeModel {
        CascadeModel {
            projection: self.projection@,
            resolution: self.resolution,
            texture_index: self.texture_index,
        }
    }
}

impl Default for GpuGiCascade {
    /// The record of a cascade that is not in use.
    fn default() -> (cascade: Self)
        ensures
            cascade@ == unused_cascade(),
    {
        let one: u32 = ONE_BITS;
        let projection: [u32; 16] = [one, 0, 0, 0, 0, one, 0, 0, 0, 0, one, 0, 0, 0, 0, one];
        assert(projection@ =~= identity_projection());
        GpuGiCascade { projection, resolution: 0, texture_index: 0 }
    }
}

/// The GPU's record of all cascades of a volume: a fixed number of cascade
/// records, of which the first `num_cascades` are in use.
#[derive(Clone, Copy, Debug)]
pub struct GpuGiCascades {
    pub num_cascades: u32,
    pub cascades: [GpuGiCascade; 8],
}

impl View for GpuGiCascades {
    type V = CascadesModel;

    open spec fn view(&self) -> CascadesModel {
        CascadesModel {
            num_cascades: self.num_cascades,
            cascades: Seq::new(MAX_CASCADE_NUM as nat, |i: int| self.cascades[i]@),
        }
    }
}

impl Default for GpuGiCascades {
    /// The record of a volume without cascades.
    fn default() -> (record: Self)
        ensures
            record@ == spec_gpu_cascades(0, 0, Seq::empty()),
            record.well_formed(),
    {
        let record = GpuGiCascades { num_cascades: 0, cascades: [GpuGiCascade::default();8] };
        assert(record@.cascades =~= spec_gpu_cascades(0, 0, Seq::empty()).cascades);
        record
    }
}

impl GpuGiCascades {
    /// Whether the count of records in use is within the record's capacity.
    pub open spec fn well_formed(&self) -> bool {
        self.num_cascades <= MAX_CASCADE_NUM
    }

    /// The record of `volume`: one cascade record for each cascade that is
    /// built, innermost first, each with the volume's resolution, its own
    /// position as its part of the texture, and its projection from
    /// `projections`.
    pub fn build(volume: &ExtractedGiVolume, projections: &Vec<[u32; 16]>) -> (record: Self)
        ensures
            record@ == spec_gpu_cascades(
                volume.resolution,
                volume.spec_effective_cascades(),
                projections@,
            ),
            record@.num_cascades == effective_cascade_count(volume.cascades as nat),
            record.well_formed(),
    {
        let count = volume.effective_cascades();
        let resolution = volume.resolution;
        let mut record = GpuGiCascades { num_cascades: count, cascades: [GpuGiCascade::default();8] };
        let mut index: usize = 0;
        while index < count as usize
            invariant
                index <= count <= 8,
                record.num_cascades == count,
                forall|i: int|
                    0 <= i < index ==> record.cascades[i]@ == used_cascade(resolution, projections@, i),
                forall|i: int| index <= i < 8 ==> record.cascades[i]@ == unused_cascade(),
            decreases count - index,
        {
            let projection = if index < projections.len() {
                projections[index]
            } else {
                GpuGiCascade::default().projection
            };
            record.cascades[index] = GpuGiCascade {
                projection,
                resolution,
                texture_index: index as u32,
            };
            index = index + 1;
        }
        assert(record@.cascades =~= spec_gpu_cascades(
            resolution,
            count as nat,
            projections@,
        ).cascades);
        record
    }

    /// The record as the uniform block lays it out, in rows of four words.
    pub fn std140_rows(&self) -> (rows: [[u32; 4]; 41])
        ensures
            rows_view(rows) == spec_std140_rows(self@),
    {
        let mut rows: [[u32; 4]; 41] = [[0u32;4];41];
        rows[0] = [self.num_cascades, 0, 0, 0];
        let mut cascade: usize = 0;
        while cascade < 8
            invariant
                cascade <= 8,
                forall|r: int|
                    0 <= r < 1 + 5 * cascade ==> (#[trigger] rows[r])@ == spec_std140_row(self@, r),
            decreases 8 - cascade,
        {
            let c = self.cascades[cascade];
            let p = c.projection;
            let base: usize = 1 + CASCADE_ROWS * cascade;
            rows[base] = [p[0], p[1], p[2], p[3]];
            rows[base + 1] = [p[4], p[5], p[6], p[7]];
            rows[base + 2] = [p[8], p[9], p[10], p[11]];
            rows[base + 3] = [p[12], p[13], p[14], p[15]];
            rows[base + 4] = [c.resolution, c.texture_index, 0, 0];
            proof {
                assert(rows[base as int]@ =~= spec_std140_row(self@, base as int));
                assert(rows[base + 1]@ =~= spec_std140_row(self@, base + 1));
                assert(rows[base + 2]@ =~= spec_std140_row(self@, base + 2));
                assert(rows[base + 3]@ =~= spec_std140_row(self@, base + 3));
                assert(rows[base + 4]@ =~= spec_std140_row(self@, base + 4));
            }
            cascade = cascade + 1;
        }
        assert(rows_view(rows) =~= spec_std140_rows(self@));
        rows
    }
}

/// The rows of a record as sequences of words.
pub open spec fn rows_view(rows: [[u32; 4]; 41]) -> Seq<Seq<u32>> {
    Seq::new(RECORD_ROWS as nat, |r: int| rows[r]@)
}

/// Row `row` of the uniform block of `record`. Row 0 holds the count and
/// three words of padding. Each cascade then takes five rows: the four
/// columns of its matrix, and a row with its resolution, its texture index
/// and two words of padding.
pub open spec fn spec_std140_row(record: CascadesModel, row: int) -> Seq<u32> {
    if row == 0 {
        seq![record.num_cascades, 0u32, 0u32, 0u32]
    } else {
        let cascade = record.cascades[(row - 1) / 5];
        let part = (row - 1) % 5;
        if part < 4 {
            cascade.projection.subrange(4 * part, 4 * part + 4)
        } else {
            seq![cascade.resolution, cascade.texture_index, 0u32, 0u32]
        }
    }
}

/// The uniform block of `record`, in rows of four words.
pub open spec fn spec_std140_rows(record: CascadesModel) -> Seq<Seq<u32>> {
    Seq::new(RECORD_ROWS as nat, |r: int| spec_std140_row(record, r))
}

} // verus!
