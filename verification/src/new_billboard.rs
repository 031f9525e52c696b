use vstd::prelude::*;
use crate::pipeline_spec::{
    all_channels, ColorWriteMask,
    is_packed_layout, msaa_samples, BindGroupLayoutSpec, BindingSpec, ColorFormat, DepthCompare,
    DepthSpec, LayoutEntrySpec, LayoutSlot, Msaa, PrimitiveSpec, RenderPipelineSpec, ShaderStages,
    VertexFormat, VertexLayout, VertexStepMode,
};
use crate::render_command::{draw_covers, draw_within, indices_cover, indices_in_range, DrawIndexed};

verus! {

/// The bind group layouts of the billboard phase pipeline: the view uniform (dynamic
/// offset, both stages) and the image with its sampler (fragment stage).
pub fn billboard_phase_layouts() -> (r: (BindGroupLayoutSpec, BindGroupLayoutSpec))
    ensures
        r.0.label@ == "billboard_view_layout"@,
        r.0.entries@ == seq![
            LayoutEntrySpec {
                binding: 0,
                visibility: ShaderStages::VertexFragment,
                ty: BindingSpec::ViewUniform { dynamic_offset: true },
            },
        ],
        r.1.label@ == "billboard_image_layout"@,
        r.1.entries@ == seq![
            LayoutEntrySpec {
                binding: 0,
                visibility: ShaderStages::Fragment,
                ty: BindingSpec::Texture2d,
            },
            LayoutEntrySpec {
                binding: 1,
                visibility: ShaderStages::Fragment,
                ty: BindingSpec::FilteringSampler,
            },
        ],
{
    let view_layout = BindGroupLayoutSpec {
        label: "billboard_view_layout",
        entries: vec![
            LayoutEntrySpec {
                binding: 0,
                visibility: ShaderStages::VertexFragment,
                ty: BindingSpec::ViewUniform { dynamic_offset: true },
            },
        ],
    };
    let image_layout = BindGroupLayoutSpec {
        label: "billboard_image_layout",
        entries: vec![
            LayoutEntrySpec {
                binding: 0,
                visibility: ShaderStages::Fragment,
                ty: BindingSpec::Texture2d,
            },
            LayoutEntrySpec {
                binding: 1,
                visibility: ShaderStages::Fragment,
                ty: BindingSpec::FilteringSampler,
            },
        ],
    };
    (view_layout, image_layout)
}

/// The two triangles of the billboard quad, as indices into its four corners.
pub open spec fn quad_indices() -> Seq<u32> {
    seq![0u32, 2, 3, 0, 1, 2]
}

/// The contents of the billboard quad's index buffer.
pub fn billboard_quad_indices() -> (r: Vec<u32>)
    ensures
        r@ == quad_indices(),
{
    let r = vec![0u32, 2, 3, 0, 1, 2];
    assert(r@ =~= quad_indices());
    r
}

/// Draws the billboard quad.
pub struct DrawBillboardPhaseItem;

impl DrawBillboardPhaseItem {
    /// One instance of the whole quad: all six indices of its index buffer.
    pub fn render() -> (r: DrawIndexed)
        ensures
            r == (DrawIndexed {
                indices_start: 0,
                indices_end: 6,
                base_vertex: 0,
                instances_start: 0,
                instances_end: 1,
            }),
    {
        DrawIndexed {
            indices_start: 0,
            indices_end: 6,
            base_vertex: 0,
            instances_start: 0,
            instances_end: 1,
        }
    }
}

/// The quad's draw reads exactly its index buffer, and that buffer names only the
/// quad's four corners, each of them.
pub proof fn lemma_quad_draw_matches_buffer(draw: DrawIndexed)
    requires
        draw == (DrawIndexed {
            indices_start: 0,
            indices_end: 6,
            base_vertex: 0,
            instances_start: 0,
            instances_end: 1,
        }),
    ensures
        draw_covers(draw, quad_indices().len()),
        draw_within(draw, quad_indices().len()),
        indices_in_range(quad_indices(), 4),
        indices_cover(quad_indices(), 4),
{
    let q = quad_indices();
    assert forall|v: nat| v < 4 implies #[trigger] q.contains(v as u32) by {
        if v == 0 {
            assert(q[0] == 0);
        } else if v == 1 {
            assert(q[4] == 1);
        } else if v == 2 {
            assert(q[1] == 2);
        } else {
            assert(q[2] == 3);
        }
    }
}

/// The attributes of a billboard vertex: a position of three floats and a uv of two.
pub open spec fn billboard_vertex_formats() -> Seq<VertexFormat> {
    seq![VertexFormat::Float32x3, VertexFormat::Float32x2]
}

/// The billboard render pipeline for a view with the given MSAA setting: view and
/// image layouts, one packed per-vertex buffer of position and uv, no shader
/// definitions, alpha blending onto the default color format, a read-only depth test
/// that always passes, the default primitive state, and the view's number of samples.
pub fn specialize_billboard_phase_pipeline(msaa: Msaa) -> (r: RenderPipelineSpec)
    ensures
        r.label@ == "billboard_render_pipeline"@,
        r.layouts@ == seq![LayoutSlot::View, LayoutSlot::Image],
        r.vertex_entry_point@ == "vertex"@,
        r.vertex_shader_defs@.len() == 0,
        r.vertex_buffers@.len() == 1,
        is_packed_layout(r.vertex_buffers@[0], VertexStepMode::Vertex, billboard_vertex_formats()),
        r.fragment_entry_point@ == "fragment"@,
        r.fragment_shader_defs@.len() == 0,
        r.color_format == ColorFormat::BevyDefault,
        r.alpha_blending,
        r.depth == Option::Some(DepthSpec { write_enabled: false, compare: DepthCompare::Always }),
        r.primitive == PrimitiveSpec::Default,
        r.sample_count == msaa_samples(msaa),
        r.sample_mask == u64::MAX,
        !r.alpha_to_coverage,
        r.color_write_mask == all_channels(),
        r.push_constant_ranges@.len() == 0,
        !r.zero_initialize_workgroup_memory,
{
    let formats = vec![VertexFormat::Float32x3, VertexFormat::Float32x2];
    assert(formats@ =~= billboard_vertex_formats());
    let vertex_layout = VertexLayout::from_vertex_formats(VertexStepMode::Vertex, formats);
    RenderPipelineSpec {
        label: "billboard_render_pipeline",
        layouts: vec![LayoutSlot::View, LayoutSlot::Image],
        vertex_entry_point: "vertex",
        vertex_shader_defs: Vec::new(),
        vertex_buffers: vec![vertex_layout],
        fragment_entry_point: "fragment",
        fragment_shader_defs: Vec::new(),
        color_format: ColorFormat::BevyDefault,
        alpha_blending: true,
        depth: Option::Some(DepthSpec { write_enabled: false, compare: DepthCompare::Always }),
        primitive: PrimitiveSpec::Default,
        sample_count: msaa.samples(),
        sample_mask: u64::MAX,
        alpha_to_coverage: false,
        color_write_mask: ColorWriteMask::all(),
        push_constant_ranges: Vec::new(),
        zero_initialize_workgroup_memory: false,
    }
}

} // verus!
