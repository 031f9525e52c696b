use vstd::prelude::*;
use crate::pipeline_spec::{
    all_channels, ColorWriteMask,
    is_packed_layout, BindGroupLayoutSpec, BindingSpec, ColorFormat, LayoutEntrySpec, LayoutSlot,
    PrimitiveSpec, RenderPipelineSpec, ShaderStages, VertexFormat, VertexLayout, VertexStepMode,
};
use crate::render_command::CommandOutcome;

verus! {

/// What a billboard pipeline is specialized for: the number of MSAA samples and
/// whether the view renders to an HDR target.
#[derive(Debug, Clone, Copy, PartialEq, Eq, Hash, Structural)]
pub struct BillboardPipelineKey {
    pub msaa: u32,
    pub hdr: bool,
}

/// The bind group layouts of the billboard pipeline: the view (the view uniform with
/// a dynamic offset, and the globals uniform, both seen by both stages) and the
/// material (a 2D texture and its sampler, fragment stage).
pub fn billboard_pipeline_layouts() -> (r: (BindGroupLayoutSpec, BindGroupLayoutSpec))
    ensures
        r.0.label@ == "billboard_view_layout"@,
        r.0.entries@ == seq![
            LayoutEntrySpec {
                binding: 0,
                visibility: ShaderStages::VertexFragment,
                ty: BindingSpec::ViewUniform { dynamic_offset: true },
            },
            LayoutEntrySpec {
                binding: 1,
                visibility: ShaderStages::VertexFragment,
                ty: BindingSpec::GlobalsUniform,
            },
        ],
        r.1.label@ == "billboard_material_layout"@,
        r.1.entries@ == seq![
            LayoutEntrySpec {
                binding: 0,
                visibility: ShaderStages::Fragment,
                ty: BindingSpec::Texture2d,
            },
            LayoutEntrySpec {
                binding: 1,
                visibility: ShaderStages::Fragment,
                ty: BindingSpec::FilteringSampler,
            },
        ],
{
    let view_layout = BindGroupLayoutSpec {
        label: "billboard_view_layout",
        entries: vec![
            LayoutEntrySpec {
                binding: 0,
                visibility: ShaderStages::VertexFragment,
                ty: BindingSpec::ViewUniform { dynamic_offset: true },
            },
            LayoutEntrySpec {
                binding: 1,
                visibility: ShaderStages::VertexFragment,
                ty: BindingSpec::GlobalsUniform,
            },
        ],
    };
    let material_layout = BindGroupLayoutSpec {
        label: "billboard_material_layout",
        entries: vec![
            LayoutEntrySpec {
                binding: 0,
                visibility: ShaderStages::Fragment,
                ty: BindingSpec::Texture2d,
            },
            LayoutEntrySpec {
                binding: 1,
                visibility: ShaderStages::Fragment,
                ty: BindingSpec::FilteringSampler,
            },
        ],
    };
    (view_layout, material_layout)
}

/// The vertex attributes of a billboard vertex: position, uv and color.
pub open spec fn billboard_vertex_formats() -> Seq<VertexFormat> {
    seq![VertexFormat::Float32x4, VertexFormat::Float32x4, VertexFormat::Float32x4]
}

/// The render pipeline for billboards with the given key: view and material layouts,
/// one packed per-vertex buffer of position, uv and color, no shader definitions,
/// alpha blending onto the HDR format when the view is HDR and onto the default
/// format otherwise, no depth test, a culling-free counter-clockwise triangle list,
/// and `key.msaa` samples.
pub fn specialize_billboard_pipeline(key: BillboardPipelineKey) -> (r: RenderPipelineSpec)
    ensures
        r.label@ == "billboard_pipeline"@,
        r.layouts@ == seq![LayoutSlot::View, LayoutSlot::Material],
        r.vertex_entry_point@ == "vertex"@,
        r.vertex_shader_defs@.len() == 0,
        r.vertex_buffers@.len() == 1,
        is_packed_layout(r.vertex_buffers@[0], VertexStepMode::Vertex, billboard_vertex_formats()),
        r.fragment_entry_point@ == "fragment"@,
        r.fragment_shader_defs@.len() == 0,
        r.color_format == (if key.hdr {
            ColorFormat::Hdr
        } else {
            ColorFormat::BevyDefault
        }),
        r.alpha_blending,
        r.depth is None,
        r.primitive == PrimitiveSpec::TriangleListCcwNoCull,
        r.sample_count == key.msaa,
        r.sample_mask == u64::MAX,
        !r.alpha_to_coverage,
        r.color_write_mask == all_channels(),
        r.push_constant_ranges@.len() == 0,
        !r.zero_initialize_workgroup_memory,
{
    let formats = vec![VertexFormat::Float32x4, VertexFormat::Float32x4, VertexFormat::Float32x4];
    assert(formats@ =~= billboard_vertex_formats());
    let vertex_layout = VertexLayout::from_vertex_formats(VertexStepMode::Vertex, formats);
    let color_format = if key.hdr {
        ColorFormat::Hdr
    } else {
        ColorFormat::BevyDefault
    };
    RenderPipelineSpec {
        label: "billboard_pipeline",
        layouts: vec![LayoutSlot::View, LayoutSlot::Material],
        vertex_entry_point: "vertex",
        vertex_shader_defs: Vec::new(),
        vertex_buffers: vec![vertex_layout],
        fragment_entry_point: "fragment",
        fragment_shader_defs: Vec::new(),
        color_format,
        alpha_blending: true,
        depth: Option::None,
        primitive: PrimitiveSpec::TriangleListCcwNoCull,
        sample_count: key.msaa,
        sample_mask: u64::MAX,
        alpha_to_coverage: false,
        color_write_mask: ColorWriteMask::all(),
        push_constant_ranges: Vec::new(),
        zero_initialize_workgroup_memory: false,
    }
}

/// Sets the billboard view bind group at slot `I`.
pub struct SetBillboardViewGroup<const I: usize>;

impl<const I: usize> SetBillboardViewGroup<I> {
    /// Binds nothing yet and reports success.
    pub fn render() -> (r: CommandOutcome)
        ensures
            r == CommandOutcome::Success,
    {
        CommandOutcome::Success
    }
}

/// Sets the billboard texture bind group at slot `I`.
pub struct SetBillboardTextureBindGroup<const I: usize>;

impl<const I: usize> SetBillboardTextureBindGroup<I> {
    /// Binds nothing yet and reports success.
    pub fn render() -> (r: CommandOutcome)
        ensures
            r == CommandOutcome::Success,
    {
        CommandOutcome::Success
    }
}

/// Draws a billboard.
pub struct DrawBillboard;

impl DrawBillboard {
    /// Draws nothing yet and reports success.
    pub fn render() -> (r: CommandOutcome)
        ensures
            r == CommandOutcome::Success,
    {
        CommandOutcome::Success
    }
}

/// The two triangles of a billboard quad, as indices into its four corners.
pub open spec fn billboard_quad_indices() -> Seq<usize> {
    seq![0usize, 2, 3, 0, 1, 2]
}

/// The six vertices of a billboard quad: for each index of its two triangles, the
/// corner's position and uv.
pub fn billboard_quad_vertices<P: Copy, U: Copy>(positions: &[P; 4], uvs: &[U; 4]) -> (r: Vec<(P, U)>)
    ensures
        r@.len() == billboard_quad_indices().len(),
        forall|k: int|
            0 <= k < r@.len() ==> #[trigger] r@[k] == (
                positions@[billboard_quad_indices()[k] as int],
                uvs@[billboard_quad_indices()[k] as int],
            ),
{
    let indices: [usize; 6] = [0, 2, 3, 0, 1, 2];
    assert(indices@ =~= billboard_quad_indices());
    let mut r: Vec<(P, U)> = Vec::new();
    let mut k: usize = 0;
    while k < 6
        invariant
            indices@ == billboard_quad_indices(),
            k <= 6,
            r@.len() == k,
            forall|j: int|
                0 <= j < k ==> #[trigger] r@[j] == (
                    positions@[billboard_quad_indices()[j] as int],
                    uvs@[billboard_quad_indices()[j] as int],
                ),
        decreases 6 - k,
    {
        let i = indices[k];
        r.push((positions[i], uvs[i]));
        k = k + 1;
    }
    r
}

/// The billboard quad names only its four corners, names each of them, and its two
/// triangles share the diagonal from corner `0` to corner `2`.
pub proof fn lemma_billboard_quad_well_formed()
    ensures
        forall|k: int|
            0 <= k < billboard_quad_indices().len() ==> #[trigger] billboard_quad_indices()[k] < 4,
        forall|v: usize| v < 4 ==> #[trigger] billboard_quad_indices().contains(v),
        billboard_quad_indices()[0] == billboard_quad_indices()[3],
        billboard_quad_indices()[1] == billboard_quad_indices()[5],
{
    let q = billboard_quad_indices();
    assert forall|v: usize| v < 4 implies #[trigger] q.contains(v) by {
        if v == 0 {
            assert(q[0] == 0);
        } else if v == 1 {
            assert(q[4] == 1);
        } else if v == 2 {
            assert(q[1] == 2);
        } else {
            assert(q[2] == 3);
        }
    }
}

} // verus!
