use vstd::prelude::*;
use crate::pipeline_spec::{
    all_channels, ColorWriteMask,
    msaa_samples, vertex_format_size, ColorFormat, DepthCompare, DepthSpec, Msaa, PrimitiveSpec, RenderPipelineSpec,
    VertexAttribute, VertexFormat, VertexLayout, VertexStepMode,
};
use crate::render_command::{draw_covers, draw_within, indices_in_range, DrawIndexed};

verus! {

/// The contents of the index buffer of the billboard phase item: one triangle.
pub open spec fn phase_item_indices() -> Seq<u32> {
    seq![0u32, 1, 2]
}

/// Fills the index buffer of the billboard phase item with the indices `0..3`.
pub fn billboard_phase_item_indices() -> (r: Vec<u32>)
    ensures
        r@ == phase_item_indices(),
{
    let mut r: Vec<u32> = Vec::new();
    let mut index: u32 = 0;
    while index < 3
        invariant
            index <= 3,
            r@.len() == index,
            forall|j: int| 0 <= j < index ==> #[trigger] r@[j] == j,
        decreases 3 - index,
    {
        r.push(index);
        index = index + 1;
    }
    assert(r@ =~= phase_item_indices());
    r
}

/// Draws the billboard phase item.
pub struct DrawBillboardPhaseItem;

impl DrawBillboardPhaseItem {
    /// One instance of the three indices of the triangle.
    pub fn render() -> (r: DrawIndexed)
        ensures
            r == (DrawIndexed {
                indices_start: 0,
                indices_end: 3,
                base_vertex: 0,
                instances_start: 0,
                instances_end: 1,
            }),
    {
        DrawIndexed {
            indices_start: 0,
            indices_end: 3,
            base_vertex: 0,
            instances_start: 0,
            instances_end: 1,
        }
    }
}

/// The draw of the billboard phase item reads exactly its index buffer, and that
/// buffer names only the three vertices of the triangle.
pub proof fn lemma_phase_item_draw_matches_buffer(draw: DrawIndexed)
    requires
        draw == (DrawIndexed {
            indices_start: 0,
            indices_end: 3,
            base_vertex: 0,
            instances_start: 0,
            instances_end: 1,
        }),
    ensures
        draw_covers(draw, phase_item_indices().len()),
        draw_within(draw, phase_item_indices().len()),
        indices_in_range(phase_item_indices(), 3),
{
}

/// The attributes of the phase item's vertex: position at offset 0 and color at
/// offset 16, both three floats.
pub open spec fn phase_item_attributes() -> Seq<VertexAttribute> {
    seq![
        VertexAttribute { format: VertexFormat::Float32x3, offset: 0, shader_location: 0 },
        VertexAttribute { format: VertexFormat::Float32x3, offset: 16, shader_location: 1 },
    ]
}

/// Size in bytes of one vertex of the phase item: position (three floats), padding,
/// color (three floats), padding.
pub const PHASE_ITEM_VERTEX_SIZE: u64 = 32;

/// The attributes of the phase item's vertex lie inside one vertex, one after the
/// other without overlapping.
pub proof fn lemma_phase_item_attributes_fit()
    ensures
        forall|i: int|
            0 <= i < phase_item_attributes().len() ==> #[trigger] phase_item_attributes()[i].offset
                + vertex_format_size(phase_item_attributes()[i].format) <= PHASE_ITEM_VERTEX_SIZE,
        phase_item_attributes()[0].offset + vertex_format_size(phase_item_attributes()[0].format)
            <= phase_item_attributes()[1].offset,
{
}

/// The render pipeline of the billboard phase item for a view with the given MSAA
/// setting. No layouts and no shader
/// definitions, one per-vertex buffer of position and color, the default color
/// format without blending, a read-only depth test that always passes, the default
/// primitive state, and the view's number of samples.
pub fn specialize_billboard_phase_pipeline(msaa: Msaa) -> (r: RenderPipelineSpec)
    ensures
        r.label@ == "custom render pipeline"@,
        r.layouts@.len() == 0,
        r.vertex_entry_point@ == "vertex"@,
        r.vertex_shader_defs@.len() == 0,
        r.vertex_buffers@.len() == 1,
        r.vertex_buffers@[0].array_stride == PHASE_ITEM_VERTEX_SIZE,
        r.vertex_buffers@[0].step_mode == VertexStepMode::Vertex,
        r.vertex_buffers@[0].attributes@ == phase_item_attributes(),
        r.fragment_entry_point@ == "fragment"@,
        r.fragment_shader_defs@.len() == 0,
        r.color_format == ColorFormat::BevyDefault,
        !r.alpha_blending,
        r.depth == Option::Some(DepthSpec { write_enabled: false, compare: DepthCompare::Always }),
        r.primitive == PrimitiveSpec::Default,
        r.sample_count == msaa_samples(msaa),
        r.sample_mask == u64::MAX,
        !r.alpha_to_coverage,
        r.color_write_mask == all_channels(),
        r.push_constant_ranges@.len() == 0,
        !r.zero_initialize_workgroup_memory,
{
    let attributes = vec![
        VertexAttribute { format: VertexFormat::Float32x3, offset: 0, shader_location: 0 },
        VertexAttribute { format: VertexFormat::Float32x3, offset: 16, shader_location: 1 },
    ];
    assert(attributes@ =~= phase_item_attributes());
    let layout = VertexLayout {
        array_stride: PHASE_ITEM_VERTEX_SIZE,
        step_mode: VertexStepMode::Vertex,
        attributes,
    };
    RenderPipelineSpec {
        label: "custom render pipeline",
        layouts: Vec::new(),
        vertex_entry_point: "vertex",
        vertex_shader_defs: Vec::new(),
        vertex_buffers: vec![layout],
        fragment_entry_point: "fragment",
        fragment_shader_defs: Vec::new(),
        color_format: ColorFormat::BevyDefault,
        alpha_blending: false,
        depth: Option::Some(DepthSpec { write_enabled: false, compare: DepthCompare::Always }),
        primitive: PrimitiveSpec::Default,
        sample_count: msaa.samples(),
        sample_mask: u64::MAX,
        alpha_to_coverage: false,
        color_write_mask: ColorWriteMask::all(),
        push_constant_ranges: Vec::new(),
        zero_initialize_workgroup_memory: false,
    }
}

} // verus!
