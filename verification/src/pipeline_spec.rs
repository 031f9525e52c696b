use vstd::prelude::*;

verus! {

/// Multisample anti-aliasing setting of a view; each variant stands for its number
/// of samples per pixel.
#[derive(Debug, Clone, Copy, PartialEq, Eq, Hash, Structural)]
pub enum Msaa {
    Off,
    Sample2,
    Sample4,
    Sample8,
}

/// Samples per pixel of an MSAA setting.
pub open spec fn msaa_samples(m: Msaa) -> u32 {
    match m {
        Msaa::Off => 1,
        Msaa::Sample2 => 2,
        Msaa::Sample4 => 4,
        Msaa::Sample8 => 8,
    }
}

impl Msaa {
    /// Samples per pixel.
    pub fn samples(&self) -> (r: u32)
        ensures
            r == msaa_samples(*self),
    {
        match self {
            Msaa::Off => 1,
            Msaa::Sample2 => 2,
            Msaa::Sample4 => 4,
            Msaa::Sample8 => 8,
        }
    }
}

impl Default for Msaa {
    fn default() -> (r: Self)
        ensures
            r == Msaa::Sample4,
    {
        Msaa::Sample4
    }
}

/// Distinct MSAA settings use distinct sample counts.
pub proof fn lemma_msaa_samples_injective(a: Msaa, b: Msaa)
    requires
        msaa_samples(a) == msaa_samples(b),
    ensures
        a == b,
{
}

/// Format of one vertex attribute.
#[derive(Debug, Clone, Copy, PartialEq, Eq, Hash, Structural)]
pub enum VertexFormat {
    Float32x2,
    Float32x3,
    Float32x4,
}

/// Size in bytes of one attribute of the given format.
pub open spec fn vertex_format_size(f: VertexFormat) -> u64 {
    match f {
        VertexFormat::Float32x2 => 8,
        VertexFormat::Float32x3 => 12,
        VertexFormat::Float32x4 => 16,
    }
}

impl VertexFormat {
    /// Size in bytes of one attribute of this format.
    pub fn size(&self) -> (r: u64)
        ensures
            r == vertex_format_size(*self),
    {
        match self {
            VertexFormat::Float32x2 => 8,
            VertexFormat::Float32x3 => 12,
            VertexFormat::Float32x4 => 16,
        }
    }
}

/// Number of 32-bit float components of a format.
pub open spec fn vertex_format_components(f: VertexFormat) -> u64 {
    match f {
        VertexFormat::Float32x2 => 2,
        VertexFormat::Float32x3 => 3,
        VertexFormat::Float32x4 => 4,
    }
}

/// An attribute takes four bytes per float component.
pub proof fn lemma_vertex_format_size_is_four_bytes_per_component(f: VertexFormat)
    ensures
        vertex_format_size(f) == 4 * vertex_format_components(f),
{
}

/// Total size of attributes of the given formats laid out back to back.
pub open spec fn formats_size(formats: Seq<VertexFormat>) -> nat
    decreases formats.len(),
{
    if formats.len() == 0 {
        0
    } else {
        formats_size(formats.drop_last()) + vertex_format_size(formats.last()) as nat
    }
}

pub proof fn lemma_formats_size_bound(formats: Seq<VertexFormat>)
    ensures
        formats_size(formats) <= 16 * formats.len(),
    decreases formats.len(),
{
    if formats.len() > 0 {
        lemma_formats_size_bound(formats.drop_last());
    }
}

/// Whether a vertex buffer advances per vertex or per instance.
#[derive(Debug, Clone, Copy, PartialEq, Eq, Hash, Structural)]
pub enum VertexStepMode {
    Vertex,
    Instance,
}

/// One attribute of a vertex buffer.
#[derive(Debug, Clone, Copy, PartialEq, Eq, Hash, Structural)]
pub struct VertexAttribute {
    pub format: VertexFormat,
    pub offset: u64,
    pub shader_location: u32,
}

/// The layout of one vertex buffer.
pub struct VertexLayout {
    pub array_stride: u64,
    pub step_mode: VertexStepMode,
    pub attributes: Vec<VertexAttribute>,
}

/// `layout` puts attributes of `formats` back to back, in order, at shader locations
/// `0, 1, 2, ...`, with a stride of their total size.
pub open spec fn is_packed_layout(layout: VertexLayout, step_mode: VertexStepMode, formats: Seq<VertexFormat>) -> bool {
    &&& layout.array_stride == formats_size(formats)
    &&& layout.step_mode == step_mode
    &&& layout.attributes@.len() == formats.len()
    &&& forall|i: int|
        #![trigger layout.attributes@[i]]
        0 <= i < formats.len() ==> {
            &&& layout.attributes@[i].format == formats[i]
            &&& layout.attributes@[i].offset == formats_size(formats.take(i))
            &&& layout.attributes@[i].shader_location == i
        }
}

impl VertexLayout {
    /// Lays out attributes of the given formats back to back, in order, with shader
    /// locations counting up from `0`.
    pub fn from_vertex_formats(step_mode: VertexStepMode, formats: Vec<VertexFormat>) -> (r: Self)
        requires
            formats@.len() <= u32::MAX,
        ensures
            is_packed_layout(r, step_mode, formats@),
            r.step_mode == step_mode,
            r.attributes@.len() == formats@.len(),
            forall|i: int|
                0 <= i < formats@.len() ==> #[trigger] r.attributes@[i].shader_location == i
                    && r.attributes@[i].format == formats@[i],
            formats@.len() > 0 ==> r.attributes@[0].offset == 0,
            forall|i: int|
                0 <= i < formats@.len() - 1 ==> #[trigger] r.attributes@[i + 1].offset
                    == r.attributes@[i].offset + vertex_format_size(formats@[i]),
            formats@.len() == 0 ==> r.array_stride == 0,
            formats@.len() > 0 ==> r.array_stride == r.attributes@[formats@.len() - 1].offset
                + vertex_format_size(formats@.last()),
    {
        let mut offset: u64 = 0;
        let mut attributes: Vec<VertexAttribute> = Vec::new();
        let n = formats.len();
        let mut i: usize = 0;
        while i < n
            invariant
                n == formats@.len(),
                n <= u32::MAX,
                i <= n,
                offset == formats_size(formats@.take(i as int)),
                attributes@.len() == i,
                forall|j: int|
                    #![trigger attributes@[j]]
                    0 <= j < i ==> {
                        &&& attributes@[j].format == formats@[j]
                        &&& attributes@[j].offset == formats_size(formats@.take(j))
                        &&& attributes@[j].shader_location == j
                    },
            decreases n - i,
        {
            let format = formats[i];
            proof {
                assert(formats@.take(i + 1).drop_last() =~= formats@.take(i as int));
                lemma_formats_size_bound(formats@.take(i + 1));
            }
            attributes.push(VertexAttribute { format, offset, shader_location: i as u32 });
            offset = offset + format.size();
            i = i + 1;
        }
        proof {
            assert(formats@.take(n as int) =~= formats@);
        }
        let r = VertexLayout { array_stride: offset, step_mode, attributes };
        proof {
            lemma_packed_attributes_tile(r, step_mode, formats@);
        }
        r
    }
}

/// A packed layout keeps the formats in order, puts attribute `i` at shader location
/// `i`, and its attributes tile its stride: each one starts where the one before it
/// ends, the first starts at `0`, and the last ends at the stride (an empty layout has
/// stride `0`).
pub proof fn lemma_packed_attributes_tile(layout: VertexLayout, step_mode: VertexStepMode, formats: Seq<VertexFormat>)
    requires
        is_packed_layout(layout, step_mode, formats),
    ensures
        layout.step_mode == step_mode,
        layout.attributes@.len() == formats.len(),
        forall|i: int|
            0 <= i < formats.len() ==> #[trigger] layout.attributes@[i].shader_location == i
                && layout.attributes@[i].format == formats[i],
        formats.len() == 0 ==> layout.array_stride == 0,
        formats.len() > 0 ==> layout.attributes@[0].offset == 0,
        forall|i: int|
            0 <= i < formats.len() - 1 ==> #[trigger] layout.attributes@[i + 1].offset
                == layout.attributes@[i].offset + vertex_format_size(formats[i]),
        formats.len() > 0 ==> layout.attributes@[formats.len() - 1].offset + vertex_format_size(
            formats.last(),
        ) == layout.array_stride,
{
    assert forall|i: int| 0 <= i < formats.len() - 1 implies #[trigger] layout.attributes@[i
        + 1].offset == layout.attributes@[i].offset + vertex_format_size(formats[i]) by {
        assert(formats.take(i + 1).drop_last() =~= formats.take(i));
        assert(layout.attributes@[i].offset == formats_size(formats.take(i)));
    }
    if formats.len() > 0 {
        assert(layout.attributes@[0].offset == formats_size(formats.take(0)));
        assert(formats.take(0) =~= Seq::<VertexFormat>::empty());
        let k = formats.len() - 1;
        assert(layout.attributes@[k].offset == formats_size(formats.take(k)));
        assert(formats.drop_last() =~= formats.take(k));
    }
}

/// Shader stages that see a binding.
#[derive(Debug, Clone, Copy, PartialEq, Eq, Hash, Structural)]
pub enum ShaderStages {
    Vertex,
    Fragment,
    VertexFragment,
}

/// What a bind group layout entry binds.
#[derive(Debug, Clone, Copy, PartialEq, Eq, Hash, Structural)]
pub enum BindingSpec {
    /// The view uniform buffer.
    ViewUniform { dynamic_offset: bool },
    /// The globals uniform buffer.
    GlobalsUniform,
    /// The per-sprite uniform buffer.
    Sprite3dUniform,
    /// A filterable float 2D texture.
    Texture2d,
    /// A filterable float 2D array texture.
    Texture2dArray,
    /// A filtering sampler.
    FilteringSampler,
}

/// One entry of a bind group layout.
#[derive(Debug, Clone, Copy, PartialEq, Eq, Hash, Structural)]
pub struct LayoutEntrySpec {
    pub binding: u32,
    pub visibility: ShaderStages,
    pub ty: BindingSpec,
}

/// A bind group layout to be created on the render device.
pub struct BindGroupLayoutSpec {
    pub label: &'static str,
    pub entries: Vec<LayoutEntrySpec>,
}

/// A `u32` shader definition.
#[derive(Debug, Clone, Copy, PartialEq, Eq)]
pub struct ShaderDef {
    pub name: &'static str,
    pub value: u32,
}

/// Which of its pipeline's bind group layouts a render pipeline uses at a slot.
#[derive(Debug, Clone, Copy, PartialEq, Eq, Hash, Structural)]
pub enum LayoutSlot {
    View,
    Image,
    Sprite3d,
    Material,
}

/// Format of the color target.
#[derive(Debug, Clone, Copy, PartialEq, Eq, Hash, Structural)]
pub enum ColorFormat {
    /// The engine's default texture format.
    BevyDefault,
    /// The HDR format of view targets.
    Hdr,
}

/// Depth comparison.
#[derive(Debug, Clone, Copy, PartialEq, Eq, Hash, Structural)]
pub enum DepthCompare {
    Greater,
    Always,
}

/// Depth test against the core 3D depth format, with default stencil and bias.
#[derive(Debug, Clone, Copy, PartialEq, Eq, Hash, Structural)]
pub struct DepthSpec {
    pub write_enabled: bool,
    pub compare: DepthCompare,
}

/// Primitive assembly.
#[derive(Debug, Clone, Copy, PartialEq, Eq, Hash, Structural)]
pub enum PrimitiveSpec {
    /// The engine's default primitive state.
    Default,
    /// Triangle list, counter-clockwise front faces, no culling, filled polygons,
    /// no strip index format, no unclipped depth, no conservative rasterization.
    TriangleListCcwNoCull,
}

/// Which channels of the color target a pipeline writes.
#[derive(Debug, Clone, Copy, PartialEq, Eq, Hash, Structural)]
pub struct ColorWriteMask {
    pub red: bool,
    pub green: bool,
    pub blue: bool,
    pub alpha: bool,
}

/// The mask that writes every channel.
pub open spec fn all_channels() -> ColorWriteMask {
    ColorWriteMask { red: true, green: true, blue: true, alpha: true }
}

impl ColorWriteMask {
    /// The mask that writes every channel.
    pub fn all() -> (r: Self)
        ensures
            r == all_channels(),
    {
        ColorWriteMask { red: true, green: true, blue: true, alpha: true }
    }
}

/// A range of push constants seen by some shader stages.
#[derive(Debug, Clone, Copy, PartialEq, Eq, Hash, Structural)]
pub struct PushConstantRangeSpec {
    pub stages: ShaderStages,
    pub start: u32,
    pub end: u32,
}

/// Everything a render pipeline descriptor holds besides the shader handle, which is
/// the pipeline's own. The descriptor has one vertex stage and one fragment stage with
/// a single color target.
pub struct RenderPipelineSpec {
    pub label: &'static str,
    pub layouts: Vec<LayoutSlot>,
    pub vertex_entry_point: &'static str,
    pub vertex_shader_defs: Vec<ShaderDef>,
    pub vertex_buffers: Vec<VertexLayout>,
    pub fragment_entry_point: &'static str,
    pub fragment_shader_defs: Vec<ShaderDef>,
    pub color_format: ColorFormat,
    pub alpha_blending: bool,
    pub depth: Option<DepthSpec>,
    pub primitive: PrimitiveSpec,
    pub sample_count: u32,
    pub sample_mask: u64,
    pub alpha_to_coverage: bool,
    pub color_write_mask: ColorWriteMask,
    pub push_constant_ranges: Vec<PushConstantRangeSpec>,
    pub zero_initialize_workgroup_memory: bool,
}

} // verus!
