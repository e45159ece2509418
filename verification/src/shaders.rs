//! What the voxelize and mipmap pipelines expect to be bound: the layouts
//! that are made once, when the device is known, and used by every frame.

use crate::cascade::RECORD_BYTES;
use crate::uniform::RECORD_STRIDE;
use crate::error::GiError;
use crate::texture::spec_volume_texture;
use crate::texture::DeviceLimits;
use crate::texture::VolumeDimension;
use crate::texture::VolumeFormat;
use crate::texture::VolumeTextureDescriptor;
use crevice::std140::AsStd140;
use crevice::std140::Mat4;
use vstd::prelude::*;

verus! {

/// Size in bytes of the view's uniform block.
pub const VIEW_UNIFORM_BYTES: u64 = 80;

/// Size in bytes of a four-by-four matrix in a uniform block.
pub const MAT4_BYTES: u64 = 64;

/// `AsStd140::std140_size_static` of `crevice::std140::Mat4`: the size in
/// bytes of a four-by-four single-precision matrix in a uniform block, four
/// columns of 16 bytes.
#[verifier::external_body]
fn mat4_std140_size() -> (size: usize)
    ensures
        size == MAT4_BYTES,
{
    Mat4::std140_size_static()
}

/// Number of bind groups in the pipeline layout of both pipelines.
pub const PIPELINE_GROUPS: u32 = 5;

/// Place of the view's group in the pipeline layout.
pub const VIEW_GROUP: u32 = 0;

/// Place of the group with the transform of the mesh that is drawn.
pub const MESH_GROUP: u32 = 1;

/// Place of the volume texture's group.
pub const VOLUME_GROUP: u32 = 2;

/// Place of the group with the vertex and index buffers of the mesh that is
/// drawn.
pub const MESH_MODEL_GROUP: u32 = 3;

/// Place of the group with the view's cascade record.
pub const CASCADE_GROUP: u32 = 4;

/// The shader stages that can see a binding.
#[derive(Clone, Copy, Debug, PartialEq, Eq, Structural)]
pub enum ShaderStage {
    Vertex,
    Fragment,
    Compute,
}

/// The kind of buffer behind a binding.
#[derive(Clone, Copy, Debug, PartialEq, Eq, Structural)]
pub enum BufferKind {
    /// A uniform block.
    Uniform,
    /// A storage buffer that the shader only reads.
    ReadOnlyStorage,
}

/// What a shader may do with a storage texture.
#[derive(Clone, Copy, Debug, PartialEq, Eq, Structural)]
pub enum StorageAccess {
    ReadOnly,
    WriteOnly,
    ReadWrite,
}

/// What a binding holds.
#[derive(Clone, Copy, Debug, PartialEq, Eq, Structural)]
pub enum BindingKind {
    /// A buffer of which the shader sees `min_binding_size` bytes at least.
    /// With `has_dynamic_offset`, each draw chooses the offset at which the
    /// buffer is bound.
    Buffer { kind: BufferKind, has_dynamic_offset: bool, min_binding_size: u64 },
    /// A storage texture.
    StorageTexture { access: StorageAccess, format: VolumeFormat, view_dimension: VolumeDimension },
}

/// One entry of a bind group layout. An entry with a `count` is an array of
/// that many bindings.
#[derive(Clone, Copy, Debug, PartialEq, Eq, Structural)]
pub struct LayoutEntry {
    pub binding: u32,
    pub visibility: ShaderStage,
    pub kind: BindingKind,
    pub count: Option<u32>,
}

/// How a sampler picks between texels, and between mip levels.
#[derive(Clone, Copy, Debug, PartialEq, Eq, Structural)]
pub enum Filter {
    Nearest,
    Linear,
}

/// What a sampler does with a coordinate beyond the texture.
#[derive(Clone, Copy, Debug, PartialEq, Eq, Structural)]
pub enum AddressMode {
    ClampToEdge,
    Repeat,
    MirrorRepeat,
}

/// The sampler of the volume texture.
#[derive(Clone, Copy, Debug, PartialEq, Eq, Structural)]
pub struct VolumeSampler {
    pub address_mode_u: AddressMode,
    pub address_mode_v: AddressMode,
    pub address_mode_w: AddressMode,
    pub mag_filter: Filter,
    pub min_filter: Filter,
    pub mipmap_filter: Filter,
}

/// The sampler that cones are traced with: coordinates beyond the volume are
/// clamped to its edge along every axis, and lookups are filtered linearly
/// within a mip level and between two mip levels.
pub open spec fn trilinear_clamped_sampler() -> VolumeSampler {
    VolumeSampler {
        address_mode_u: AddressMode::ClampToEdge,
        address_mode_v: AddressMode::ClampToEdge,
        address_mode_w: AddressMode::ClampToEdge,
        mag_filter: Filter::Linear,
        min_filter: Filter::Linear,
        mipmap_filter: Filter::Linear,
    }
}

/// The entry of a uniform block of `size` bytes at `binding`, seen by the
/// compute stage and bound at an offset that each draw chooses.
pub open spec fn uniform_entry(binding: u32, size: u64) -> LayoutEntry {
    LayoutEntry {
        binding,
        visibility: ShaderStage::Compute,
        kind: BindingKind::Buffer {
            kind: BufferKind::Uniform,
            has_dynamic_offset: true,
            min_binding_size: size,
        },
        count: None,
    }
}

/// The entry of a read-only storage buffer at `binding`, of which `size`
/// bytes are seen at least, seen by the compute stage and bound at an
/// offset that each draw chooses.
pub open spec fn storage_entry(binding: u32, size: u64) -> LayoutEntry {
    LayoutEntry {
        binding,
        visibility: ShaderStage::Compute,
        kind: BindingKind::Buffer {
            kind: BufferKind::ReadOnlyStorage,
            has_dynamic_offset: true,
            min_binding_size: size,
        },
        count: None,
    }
}

/// The entry of the volume texture at `binding`: a 3D storage texture of
/// four single-precision channels that the compute stage reads and writes.
pub open spec fn volume_texture_entry(binding: u32) -> LayoutEntry {
    LayoutEntry {
        binding,
        visibility: ShaderStage::Compute,
        kind: BindingKind::StorageTexture {
            access: StorageAccess::ReadWrite,
            format: VolumeFormat::Rgba32Float,
            view_dimension: VolumeDimension::D3,
        },
        count: None,
    }
}

/// Whether the entries of a layout are numbered from 0 upwards without a
/// gap, as the shader declares them.
pub open spec fn numbered_in_order(layout: Seq<LayoutEntry>) -> bool {
    forall|i: int| 0 <= i < layout.len() ==> (#[trigger] layout[i]).binding == i
}

/// Whether every entry of a layout is a single binding that the compute
/// stage sees, and no other stage.
pub open spec fn compute_only(layout: Seq<LayoutEntry>) -> bool {
    forall|i: int|
        0 <= i < layout.len() ==> (#[trigger] layout[i]).visibility == ShaderStage::Compute
            && layout[i].count is None
}

/// Whether `texture` can be bound at `entry`: the entry is a storage
/// texture of the texture's format and dimension, and the texture was made
/// for use as a storage texture.
pub open spec fn binds_texture(entry: LayoutEntry, texture: VolumeTextureDescriptor) -> bool {
    match entry.kind {
        BindingKind::StorageTexture { format, view_dimension, .. } => format == texture.format
            && view_dimension == texture.dimension && texture.usage.storage,
        BindingKind::Buffer { .. } => false,
    }
}

/// Whether a buffer of `bytes` bytes can be bound at `entry`: the entry is
/// a buffer, and the buffer holds at least what the shader sees of it.
pub open spec fn binds_buffer(entry: LayoutEntry, bytes: u64) -> bool {
    match entry.kind {
        BindingKind::Buffer { min_binding_size, .. } => bytes >= min_binding_size,
        BindingKind::StorageTexture { .. } => false,
    }
}

impl LayoutEntry {
    /// Whether `texture` can be bound at this entry.
    pub fn takes_texture(&self, texture: &VolumeTextureDescriptor) -> (fits: bool)
        ensures
            fits == binds_texture(*self, *texture),
    {
        match self.kind {
            BindingKind::StorageTexture { format, view_dimension, .. } => format == texture.format
                && view_dimension == texture.dimension && texture.usage.storage,
            BindingKind::Buffer { .. } => false,
        }
    }

    /// Whether a buffer of `bytes` bytes can be bound at this entry.
    pub fn takes_buffer(&self, bytes: u64) -> (fits: bool)
        ensures
            fits == binds_buffer(*self, bytes),
    {
        match self.kind {
            BindingKind::Buffer { min_binding_size, .. } => bytes >= min_binding_size,
            BindingKind::StorageTexture { .. } => false,
        }
    }
}

/// What the pipelines of the volume expect to be bound, and how they are
/// entered.
#[derive(Debug)]
pub struct GiShaders {
    /// The view.
    pub view_layout: Vec<LayoutEntry>,
    /// The transform of the mesh that is drawn.
    pub mesh_layout: Vec<LayoutEntry>,
    /// The volume texture.
    pub volume_layout: Vec<LayoutEntry>,
    /// The vertex and index buffers of the mesh that is drawn.
    pub mesh_model_layout: Vec<LayoutEntry>,
    /// The view's cascade record.
    pub cascade_layout: Vec<LayoutEntry>,
    /// Entry point of the pass that writes the triangles into the volume.
    pub voxelize_entry_point: &'static str,
    /// Entry point of the pass that makes one mip level out of the one before.
    pub mipmap_entry_point: &'static str,
    /// The sampler that later passes read the volume with.
    pub volume_sampler: VolumeSampler,
}

impl GiShaders {
    /// Whether the description is the one that the shader is written for.
    pub open spec fn matches_shader(&self) -> bool {
        &&& self.view_layout@ == seq![uniform_entry(0, VIEW_UNIFORM_BYTES)]
        &&& self.mesh_layout@ == seq![uniform_entry(0, MAT4_BYTES)]
        &&& self.volume_layout@ == seq![volume_texture_entry(0)]
        &&& self.mesh_model_layout@ == seq![storage_entry(0, MAT4_BYTES), storage_entry(1, MAT4_BYTES)]
        &&& self.cascade_layout@ == seq![uniform_entry(0, RECORD_BYTES as u64)]
        &&& self.voxelize_entry_point@ == "vertex"@
        &&& self.mipmap_entry_point@ == "mipmap"@
        &&& self.volume_sampler == trilinear_clamped_sampler()
    }

    /// The bind group layouts of the pipeline layout of both pipelines, in
    /// the order of their groups: view, mesh, volume, the mesh's vertex and
    /// index buffers, the cascade record.
    pub open spec fn spec_pipeline_layout(&self) -> Seq<Seq<LayoutEntry>> {
        seq![
            self.view_layout@,
            self.mesh_layout@,
            self.volume_layout@,
            self.mesh_model_layout@,
            self.cascade_layout@,
        ]
    }

    /// Describes the layouts, entry points and sampler of the pipelines.
    pub fn new() -> (shaders: Self)
        ensures
            shaders.matches_shader(),
            forall|group: int|
                0 <= group < shaders.spec_pipeline_layout().len() ==> numbered_in_order(
                    #[trigger] shaders.spec_pipeline_layout()[group],
                ) && compute_only(shaders.spec_pipeline_layout()[group]),
            shaders.volume_layout@.len() == 1,
            shaders.volume_sampler.mipmap_filter == Filter::Linear,
    {
        let matrix_size = mat4_std140_size() as u64;
        let mut view_layout: Vec<LayoutEntry> = Vec::new();
        view_layout.push(uniform(0, VIEW_UNIFORM_BYTES));
        let mut mesh_layout: Vec<LayoutEntry> = Vec::new();
        mesh_layout.push(uniform(0, matrix_size));
        let mut volume_layout: Vec<LayoutEntry> = Vec::new();
        volume_layout.push(
            LayoutEntry {
                binding: 0,
                visibility: ShaderStage::Compute,
                kind: BindingKind::StorageTexture {
                    access: StorageAccess::ReadWrite,
                    format: VolumeFormat::Rgba32Float,
                    view_dimension: VolumeDimension::D3,
                },
                count: None,
            },
        );
        let mut mesh_model_layout: Vec<LayoutEntry> = Vec::new();
        mesh_model_layout.push(read_only_storage(0, matrix_size));
        mesh_model_layout.push(read_only_storage(1, matrix_size));
        let mut cascade_layout: Vec<LayoutEntry> = Vec::new();
        cascade_layout.push(uniform(0, RECORD_BYTES as u64));
        let shaders = GiShaders {
            view_layout,
            mesh_layout,
            volume_layout,
            mesh_model_layout,
            cascade_layout,
            voxelize_entry_point: "vertex",
            mipmap_entry_point: "mipmap",
            volume_sampler: VolumeSampler {
                address_mode_u: AddressMode::ClampToEdge,
                address_mode_v: AddressMode::ClampToEdge,
                address_mode_w: AddressMode::ClampToEdge,
                mag_filter: Filter::Linear,
                min_filter: Filter::Linear,
                mipmap_filter: Filter::Linear,
            },
        };
        proof {
            assert(shaders.view_layout@ =~= seq![uniform_entry(0, VIEW_UNIFORM_BYTES)]);
            assert(shaders.mesh_layout@ =~= seq![uniform_entry(0, MAT4_BYTES)]);
            assert(shaders.volume_layout@ =~= seq![volume_texture_entry(0)]);
            assert(shaders.mesh_model_layout@ =~= seq![
                storage_entry(0, MAT4_BYTES),
                storage_entry(1, MAT4_BYTES),
            ]);
            assert(shaders.cascade_layout@ =~= seq![uniform_entry(0, RECORD_BYTES as u64)]);
        }
        shaders
    }

    /// The bind group layouts of the pipeline layout of both pipelines, in
    /// the order of their groups.
    pub fn pipeline_layout(&self) -> (groups: Vec<Vec<LayoutEntry>>)
        ensures
            groups@.len() == PIPELINE_GROUPS,
            groups@.len() == self.spec_pipeline_layout().len(),
            forall|group: int|
                0 <= group < groups@.len() ==> (#[trigger] groups@[group])@
                    == self.spec_pipeline_layout()[group],
            groups@[VIEW_GROUP as int]@ == self.view_layout@,
            groups@[MESH_GROUP as int]@ == self.mesh_layout@,
            groups@[VOLUME_GROUP as int]@ == self.volume_layout@,
            groups@[MESH_MODEL_GROUP as int]@ == self.mesh_model_layout@,
            groups@[CASCADE_GROUP as int]@ == self.cascade_layout@,
    {
        let mut groups: Vec<Vec<LayoutEntry>> = Vec::new();
        groups.push(self.view_layout.clone());
        groups.push(self.mesh_layout.clone());
        groups.push(self.volume_layout.clone());
        groups.push(self.mesh_model_layout.clone());
        groups.push(self.cascade_layout.clone());
        groups
    }

    /// Says whether a device with `limits` can hold the pipeline layout: it
    /// has to take as many bind groups as the layout lists.
    pub fn supported_by(&self, limits: &DeviceLimits) -> (verdict: Result<(), GiError>)
        ensures
            verdict is Err <==> limits.max_bind_groups < PIPELINE_GROUPS,
            verdict is Err ==> verdict == Err::<(), GiError>(
                GiError::TooManyBindGroups {
                    needed: PIPELINE_GROUPS,
                    limit: limits.max_bind_groups,
                },
            ),
    {
        if limits.max_bind_groups < PIPELINE_GROUPS {
            Err(GiError::TooManyBindGroups { needed: PIPELINE_GROUPS, limit: limits.max_bind_groups })
        } else {
            Ok(())
        }
    }
}

fn uniform(binding: u32, size: u64) -> (entry: LayoutEntry)
    ensures
        entry == uniform_entry(binding, size),
{
    LayoutEntry {
        binding,
        visibility: ShaderStage::Compute,
        kind: BindingKind::Buffer {
            kind: BufferKind::Uniform,
            has_dynamic_offset: true,
            min_binding_size: size,
        },
        count: None,
    }
}

fn read_only_storage(binding: u32, size: u64) -> (entry: LayoutEntry)
    ensures
        entry == storage_entry(binding, size),
{
    LayoutEntry {
        binding,
        visibility: ShaderStage::Compute,
        kind: BindingKind::Buffer {
            kind: BufferKind::ReadOnlyStorage,
            has_dynamic_offset: true,
            min_binding_size: size,
        },
        count: None,
    }
}

/// The texture that preparation asks for can be bound where the pipelines
/// expect the volume: it has the format and the dimension of the volume
/// layout's entry, and it is made for use as a storage texture and for
/// sampling.
pub proof fn lemma_prepared_texture_fits_volume_layout(
    shaders: GiShaders,
    resolution: u32,
    cascades: nat,
    limit: u32,
)
    requires
        shaders.matches_shader(),
        spec_volume_texture(resolution, cascades, limit) is Ok,
    ensures
        binds_texture(
            shaders.volume_layout@[0],
            spec_volume_texture(resolution, cascades, limit)->Ok_0,
        ),
        spec_volume_texture(resolution, cascades, limit)->Ok_0.usage.sampled,
{
}

/// The cascade record of a view can be bound where the pipelines expect it:
/// a record is exactly as long as the cascade layout's entry asks, and so is
/// the part of the uniform buffer that one stride covers.
pub proof fn lemma_record_fits_cascade_layout(shaders: GiShaders)
    requires
        shaders.matches_shader(),
    ensures
        binds_buffer(shaders.cascade_layout@[0], RECORD_BYTES as u64),
        binds_buffer(shaders.cascade_layout@[0], RECORD_STRIDE as u64),
        !binds_buffer(shaders.cascade_layout@[0], (RECORD_BYTES - 1) as u64),
{
}

} // verus!
