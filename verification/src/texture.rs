//! The 3D texture that holds a volume's cascades, and its mip chain.

use crate::error::GiError;
use crate::extract::ExtractedGiVolume;
use vstd::arithmetic::div_mod::lemma_div_denominator;
use vstd::arithmetic::power2::lemma2_to64;
use vstd::arithmetic::power2::lemma_pow2_pos;
use vstd::arithmetic::power2::lemma_pow2_unfold;
use vstd::arithmetic::power2::pow2;
use vstd::prelude::*;

verus! {

/// Edge of the cube of texels that one workgroup of the mipmap pass makes.
pub const MIPMAP_WORKGROUP_EDGE: u32 = 4;

/// Number of triangles that one workgroup of the voxelize pass writes.
pub const VOXELIZE_WORKGROUP_SIZE: u32 = 64;

/// What the device says it can do, as far as a volume is concerned.
#[derive(Clone, Copy, Debug, PartialEq, Eq, Structural)]
pub struct DeviceLimits {
    /// The most texels that an edge of a 3D texture may have.
    pub max_texture_dimension_3d: u32,
    /// The most bind groups that a pipeline layout may list.
    pub max_bind_groups: u32,
}

/// How many axes a texture has.
#[derive(Clone, Copy, Debug, PartialEq, Eq, Hash, Structural)]
pub enum VolumeDimension {
    /// Width, height and depth.
    D3,
}

/// What a texel of a texture holds.
#[derive(Clone, Copy, Debug, PartialEq, Eq, Hash, Structural)]
pub enum VolumeFormat {
    /// Four single-precision channels: colour and opacity.
    Rgba32Float,
}

/// What a texture is made to be used for.
#[derive(Clone, Copy, Debug, PartialEq, Eq, Hash, Structural)]
pub struct VolumeUsage {
    /// A shader may sample the texture.
    pub sampled: bool,
    /// A shader may bind the texture as a storage texture.
    pub storage: bool,
}

/// The texture of a volume, in which the cascades lie one behind the other
/// along the depth. Two volumes with equal descriptors can share a texture.
#[derive(Clone, Copy, Debug, PartialEq, Eq, Hash, Structural)]
pub struct VolumeTextureDescriptor {
    pub width: u32,
    pub height: u32,
    pub depth: u32,
    pub mip_level_count: u32,
    pub sample_count: u32,
    pub dimension: VolumeDimension,
    pub format: VolumeFormat,
    pub usage: VolumeUsage,
}

/// The number of levels in the mip chain of a texture whose cascades have
/// `resolution` texels per edge: one more than the number of times that
/// `resolution` can be halved before nothing is left of a cascade.
pub open spec fn spec_mip_level_count(resolution: nat) -> nat
    decreases resolution,
{
    if resolution == 0 {
        0
    } else {
        1 + spec_mip_level_count(resolution / 2)
    }
}

/// The mip chain of a cascade with at least one texel has one level more
/// than the binary logarithm of its resolution, rounded down.
pub proof fn lemma_mip_level_count_is_log2(resolution: nat)
    requires
        resolution >= 1,
    ensures
        spec_mip_level_count(resolution) >= 1,
        pow2((spec_mip_level_count(resolution) - 1) as nat) <= resolution < pow2(
            spec_mip_level_count(resolution),
        ),
    decreases resolution,
{
    if resolution == 1 {
        assert(spec_mip_level_count(1) == 1 + spec_mip_level_count(0));
        lemma2_to64();
    } else {
        let half = resolution / 2;
        lemma_mip_level_count_is_log2(half);
        let n = spec_mip_level_count(half);
        lemma_pow2_unfold(n);
        lemma_pow2_unfold(n + 1);
    }
}

/// The number of levels in the mip chain of a texture whose cascades have
/// `resolution` texels per edge.
pub fn mip_level_count(resolution: u32) -> (count: u32)
    ensures
        count == spec_mip_level_count(resolution as nat),
        count <= 32,
{
    let mut count: u32 = 0;
    let mut rest: u32 = resolution;
    let mut bound: Ghost<nat> = Ghost(32);
    proof {
        lemma2_to64();
    }
    while rest > 0
        invariant
            count + spec_mip_level_count(rest as nat) == spec_mip_level_count(resolution as nat),
            count + bound@ == 32,
            rest < pow2(bound@),
        decreases rest,
    {
        proof {
            if bound@ == 0 {
                lemma2_to64();
            } else {
                lemma_pow2_unfold(bound@);
                bound@ = (bound@ - 1) as nat;
            }
        }
        count = count + 1;
        rest = rest / 2;
    }
    count
}

/// The texture that a volume of `resolution` texels per edge and `cascades`
/// cascades needs on a device that takes edges up to `limit`, or the reason
/// why there is none.
pub open spec fn spec_volume_texture(resolution: u32, cascades: nat, limit: u32) -> Result<
    VolumeTextureDescriptor,
    GiError,
> {
    if resolution == 0 {
        Err(GiError::ZeroResolution)
    } else if cascades == 0 {
        Err(GiError::ZeroCascades)
    } else if resolution * cascades > limit {
        Err(GiError::TextureTooLarge { requested: (resolution * cascades) as u64, limit })
    } else {
        Ok(
            VolumeTextureDescriptor {
                width: resolution,
                height: resolution,
                depth: (resolution * cascades) as u32,
                mip_level_count: spec_mip_level_count(resolution as nat) as u32,
                sample_count: 1,
                dimension: VolumeDimension::D3,
                format: VolumeFormat::Rgba32Float,
                usage: VolumeUsage { sampled: true, storage: true },
            },
        )
    }
}

/// Describes the texture that `volume` needs, without asking the device for
/// it. A volume without texels or without cascades has no texture, and
/// neither has one whose depth is beyond what the device takes.
pub fn volume_texture_descriptor(volume: &ExtractedGiVolume, limits: &DeviceLimits) -> (texture: Result<
    VolumeTextureDescriptor,
    GiError,
>)
    ensures
        texture == spec_volume_texture(
            volume.resolution,
            volume.spec_effective_cascades(),
            limits.max_texture_dimension_3d,
        ),
        volume.resolution == 0 ==> texture == Err::<VolumeTextureDescriptor, GiError>(
            GiError::ZeroResolution,
        ),
{
    let resolution = volume.resolution;
    let cascades = volume.effective_cascades();
    if resolution == 0 {
        return Err(GiError::ZeroResolution);
    }
    if cascades == 0 {
        return Err(GiError::ZeroCascades);
    }
    assert(resolution * cascades <= 0xFFFF_FFFF * 8) by (nonlinear_arith)
        requires
            resolution <= 0xFFFF_FFFF,
            cascades <= 8,
    ;
    let depth: u64 = resolution as u64 * cascades as u64;
    if depth > limits.max_texture_dimension_3d as u64 {
        return Err(GiError::TextureTooLarge { requested: depth, limit: limits.max_texture_dimension_3d });
    }
    Ok(
        VolumeTextureDescriptor {
            width: resolution,
            height: resolution,
            depth: depth as u32,
            mip_level_count: mip_level_count(resolution),
            sample_count: 1,
            dimension: VolumeDimension::D3,
            format: VolumeFormat::Rgba32Float,
            usage: VolumeUsage { sampled: true, storage: true },
        },
    )
}

/// The number of texels along an edge at mip level `level`, for an edge of
/// `base` texels at level 0: the edge is halved once per level, and no edge
/// has less than one texel.
pub open spec fn mip_extent(base: nat, level: nat) -> nat {
    if base / pow2(level) >= 1 {
        base / pow2(level)
    } else {
        1
    }
}

/// One step down the mip chain halves the edge, and no edge has less than
/// one texel.
pub proof fn lemma_mip_extent_halves(base: nat, level: nat)
    ensures
        mip_extent(base, 0) == if base >= 1 { base } else { 1 },
        mip_extent(base, level + 1) == if mip_extent(base, level) / 2 >= 1 {
            mip_extent(base, level) / 2
        } else {
            1
        },
{
    lemma2_to64();
    lemma_pow2_pos(level);
    lemma_pow2_unfold(level + 1);
    lemma_div_denominator(base as int, pow2(level) as int, 2);
    assert(pow2(level) * 2 == 2 * pow2(level));
}

/// The extent of one level of a volume texture's mip chain.
#[derive(Clone, Copy, Debug, PartialEq, Eq, Structural)]
pub struct MipLevel {
    pub level: u32,
    pub width: u32,
    pub height: u32,
    pub depth: u32,
}

impl MipLevel {
    /// The number of workgroups of the mipmap pass that make this level,
    /// along each axis.
    pub fn mipmap_workgroups(&self) -> (groups: (u32, u32, u32))
        ensures
            groups.0 == spec_workgroups(self.width as nat, MIPMAP_WORKGROUP_EDGE as nat),
            groups.1 == spec_workgroups(self.height as nat, MIPMAP_WORKGROUP_EDGE as nat),
            groups.2 == spec_workgroups(self.depth as nat, MIPMAP_WORKGROUP_EDGE as nat),
    {
        (
            workgroups(self.width, MIPMAP_WORKGROUP_EDGE),
            workgroups(self.height, MIPMAP_WORKGROUP_EDGE),
            workgroups(self.depth, MIPMAP_WORKGROUP_EDGE),
        )
    }
}

/// Level `level` of the mip chain of `texture`.
pub open spec fn spec_mip_level(texture: VolumeTextureDescriptor, level: int) -> MipLevel {
    MipLevel {
        level: level as u32,
        width: mip_extent(texture.width as nat, level as nat) as u32,
        height: mip_extent(texture.height as nat, level as nat) as u32,
        depth: mip_extent(texture.depth as nat, level as nat) as u32,
    }
}

/// The least number of groups of `per_group` that hold `items` between them.
pub open spec fn spec_workgroups(items: nat, per_group: nat) -> nat {
    if items % per_group == 0 {
        items / per_group
    } else {
        items / per_group + 1
    }
}

/// `spec_workgroups` is the least number of groups that is enough: that
/// many groups hold all items, and `fewer` groups do not.
pub proof fn lemma_workgroups_are_least(items: nat, per_group: nat, fewer: nat)
    requires
        per_group > 0,
    ensures
        spec_workgroups(items, per_group) * per_group >= items,
        fewer < spec_workgroups(items, per_group) ==> fewer * per_group < items,
{
    let q = items / per_group;
    let r = items % per_group;
    assert(items == per_group * q + r) by {
        vstd::arithmetic::div_mod::lemma_fundamental_div_mod(items as int, per_group as int);
    }
    assert((q + 1) * per_group == q * per_group + per_group) by (nonlinear_arith);
    assert(per_group * q == q * per_group) by (nonlinear_arith);
    if fewer >= spec_workgroups(items, per_group) {
    } else if r == 0 {
        assert(fewer * per_group <= (q - 1) * per_group) by (nonlinear_arith)
            requires
                fewer <= q - 1,
                per_group > 0,
        ;
        assert((q - 1) * per_group == q * per_group - per_group) by (nonlinear_arith);
    } else {
        assert(fewer * per_group <= q * per_group) by (nonlinear_arith)
            requires
                fewer <= q,
                per_group > 0,
        ;
    }
}

fn workgroups(items: u32, per_group: u32) -> (groups: u32)
    requires
        per_group > 0,
    ensures
        groups == spec_workgroups(items as nat, per_group as nat),
{
    let whole: u32 = items / per_group;
    if items % per_group == 0 {
        whole
    } else {
        assert(whole < u32::MAX) by {
            if per_group == 1 {
                assert(items % 1 == 0);
            } else {
                assert(items / per_group <= items / 2) by (nonlinear_arith)
                    requires
                        per_group >= 2,
                        items >= 0,
                ;
            }
        }
        whole + 1
    }
}

/// The number of workgroups of the voxelize pass that a mesh of
/// `vertex_count` vertices needs: three vertices make a triangle, and what
/// is left of a triangle is not drawn.
pub fn voxelize_workgroups(vertex_count: u32) -> (groups: u32)
    ensures
        groups == spec_workgroups((vertex_count / 3) as nat, VOXELIZE_WORKGROUP_SIZE as nat),
{
    workgroups(vertex_count / 3, VOXELIZE_WORKGROUP_SIZE)
}

fn halve(extent: u32) -> (half: u32)
    ensures
        half == if extent / 2 >= 1 { extent / 2 } else { 1 },
{
    if extent / 2 >= 1 {
        extent / 2
    } else {
        1
    }
}

impl VolumeTextureDescriptor {
    /// The levels of the texture's mip chain, finest first.
    pub fn mip_chain(&self) -> (levels: Vec<MipLevel>)
        ensures
            levels@.len() == self.mip_level_count,
            forall|k: int| 0 <= k < levels@.len() ==> levels@[k] == spec_mip_level(*self, k),
    {
        let mut levels: Vec<MipLevel> = Vec::new();
        let mut level: u32 = 0;
        let mut width: u32 = if self.width >= 1 { self.width } else { 1 };
        let mut height: u32 = if self.height >= 1 { self.height } else { 1 };
        let mut depth: u32 = if self.depth >= 1 { self.depth } else { 1 };
        proof {
            lemma_mip_extent_halves(self.width as nat, 0);
            lemma_mip_extent_halves(self.height as nat, 0);
            lemma_mip_extent_halves(self.depth as nat, 0);
        }
        while level < self.mip_level_count
            invariant
                level <= self.mip_level_count,
                levels@.len() == level,
                width == mip_extent(self.width as nat, level as nat),
                height == mip_extent(self.height as nat, level as nat),
                depth == mip_extent(self.depth as nat, level as nat),
                forall|k: int| 0 <= k < level ==> levels@[k] == spec_mip_level(*self, k),
            decreases self.mip_level_count - level,
        {
            levels.push(MipLevel { level, width, height, depth });
            proof {
                lemma_mip_extent_halves(self.width as nat, level as nat);
                lemma_mip_extent_halves(self.height as nat, level as nat);
                lemma_mip_extent_halves(self.depth as nat, level as nat);
            }
            width = halve(width);
            height = halve(height);
            depth = halve(depth);
            level = level + 1;
        }
        levels
    }

    /// Where along the depth of the texture the cascade with the given
    /// texture index begins. Each cascade takes as many slices as the
    /// texture is wide; there is no such cascade where the texture is not
    /// deep enough for it.
    pub open spec fn spec_cascade_depth_offset(self, texture_index: u32) -> Option<u32> {
        if (texture_index + 1) * self.width <= self.depth {
            Some((texture_index * self.width) as u32)
        } else {
            None
        }
    }

    /// Where along the depth of the texture the cascade with the given
    /// texture index begins.
    pub fn cascade_depth_offset(&self, texture_index: u32) -> (offset: Option<u32>)
        ensures
            offset == self.spec_cascade_depth_offset(texture_index),
    {
        let index: u64 = texture_index as u64;
        let width: u64 = self.width as u64;
        assert(index * width + width <= 0xFFFF_FFFF * 0xFFFF_FFFF + 0xFFFF_FFFF) by (nonlinear_arith)
            requires
                0 <= index <= 0xFFFF_FFFF,
                0 <= width <= 0xFFFF_FFFF,
        ;
        assert((texture_index + 1) * self.width == index * width + width) by (nonlinear_arith)
            requires
                index == texture_index,
                width == self.width,
        ;
        let begin: u64 = index * width;
        if begin + width <= self.depth as u64 {
            Some(begin as u32)
        } else {
            None
        }
    }
}

/// The cascades of a volume tile the depth of its texture: the first begins
/// at depth 0, each begins where the one before it ends, the last ends where
/// the texture ends, and there is no cascade behind the last.
pub proof fn lemma_cascades_tile_depth(resolution: u32, cascades: nat, limit: u32, index: u32)
    requires
        spec_volume_texture(resolution, cascades, limit) is Ok,
        index < cascades,
    ensures
        ({
            let texture = spec_volume_texture(resolution, cascades, limit)->Ok_0;
            &&& cascades <= u32::MAX
            &&& texture.spec_cascade_depth_offset(0) == Some(0u32)
            &&& texture.spec_cascade_depth_offset(index) == Some((index * resolution) as u32)
            &&& index * resolution + resolution <= texture.depth
            &&& index + 1 == cascades ==> index * resolution + resolution == texture.depth
            &&& texture.spec_cascade_depth_offset(cascades as u32) is None
        }),
{
    let r = resolution as int;
    let c = cascades as int;
    let i = index as int;
    assert(c <= r * c) by (nonlinear_arith)
        requires
            r >= 1,
            c >= 0,
    ;
    assert((i + 1) * r <= c * r && (i + 1) * r == i * r + r && i * r >= 0 && r * c == c * r && (c
        + 1) * r == c * r + r && (0 + 1) * r == r && 0 * r == 0 && r <= c * r) by (nonlinear_arith)
        requires
            0 <= i,
            i + 1 <= c,
            r >= 1,
    ;
}

} // verus!
