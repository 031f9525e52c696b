use vstd::prelude::*;
use crate::billboard_mode::{billboard_shader_value, ExtractedBillboard};
use crate::pipeline_spec::{
    all_channels, ColorWriteMask,
    msaa_samples, BindGroupLayoutSpec, BindingSpec, ColorFormat, DepthCompare, DepthSpec,
    LayoutEntrySpec, LayoutSlot, Msaa, PrimitiveSpec, RenderPipelineSpec, ShaderDef, ShaderStages,
};
use crate::render_command::{
    draw_covers, draw_within, indices_cover, indices_in_range, CommandOutcome, DrawIndexed,
};
use std::collections::HashMap;

verus! {

broadcast use vstd::std_specs::hash::group_hash_axioms;

/// What a sprite pipeline is specialized for: the view's MSAA setting and the
/// sprite's billboard mode.
#[derive(Debug, Clone, Copy, PartialEq, Eq, Hash, Structural)]
pub struct Sprite3dPipelineKey {
    pub msaa: Msaa,
    pub billboard: ExtractedBillboard,
}

/// The bind group layouts of the sprite pipeline: the view uniform (dynamic offset,
/// seen by both stages), the sprite's array texture and sampler (fragment stage), and
/// the per-sprite uniform (vertex stage).
pub fn sprite3d_pipeline_layouts() -> (r: (BindGroupLayoutSpec, BindGroupLayoutSpec, BindGroupLayoutSpec))
    ensures
        r.0.label@ == "bor3d_sprite3d_view_layout"@,
        r.0.entries@ == seq![
            LayoutEntrySpec {
                binding: 0,
                visibility: ShaderStages::VertexFragment,
                ty: BindingSpec::ViewUniform { dynamic_offset: true },
            },
        ],
        r.1.label@ == "bor3d_sprite3d_image_layout"@,
        r.1.entries@ == seq![
            LayoutEntrySpec {
                binding: 0,
                visibility: ShaderStages::Fragment,
                ty: BindingSpec::Texture2dArray,
            },
            LayoutEntrySpec {
                binding: 1,
                visibility: ShaderStages::Fragment,
                ty: BindingSpec::FilteringSampler,
            },
        ],
        r.2.label@ == "bor3d_sprite3d_layout"@,
        r.2.entries@ == seq![
            LayoutEntrySpec {
                binding: 0,
                visibility: ShaderStages::Vertex,
                ty: BindingSpec::Sprite3dUniform,
            },
        ],
{
    let view_layout = BindGroupLayoutSpec {
        label: "bor3d_sprite3d_view_layout",
        entries: vec![
            LayoutEntrySpec {
                binding: 0,
                visibility: ShaderStages::VertexFragment,
                ty: BindingSpec::ViewUniform { dynamic_offset: true },
            },
        ],
    };
    let image_layout = BindGroupLayoutSpec {
        label: "bor3d_sprite3d_image_layout",
        entries: vec![
            LayoutEntrySpec {
                binding: 0,
                visibility: ShaderStages::Fragment,
                ty: BindingSpec::Texture2dArray,
            },
            LayoutEntrySpec {
                binding: 1,
                visibility: ShaderStages::Fragment,
                ty: BindingSpec::FilteringSampler,
            },
        ],
    };
    let sprite3d_layout = BindGroupLayoutSpec {
        label: "bor3d_sprite3d_layout",
        entries: vec![
            LayoutEntrySpec {
                binding: 0,
                visibility: ShaderStages::Vertex,
                ty: BindingSpec::Sprite3dUniform,
            },
        ],
    };
    (view_layout, image_layout, sprite3d_layout)
}

/// The `BILLBOARD` shader definition of a sprite pipeline.
pub open spec fn billboard_def(key: Sprite3dPipelineKey) -> ShaderDef {
    ShaderDef { name: "BILLBOARD", value: billboard_shader_value(key.billboard) }
}

/// The render pipeline for sprites with the given key: the view, image and sprite
/// layouts in that order, the `BILLBOARD` definition in both stages, no vertex
/// buffers, alpha blending onto the default color format, a read-only `Greater` depth
/// test, the default primitive state, and as many samples as the view's MSAA setting.
pub fn specialize_sprite3d_pipeline(key: Sprite3dPipelineKey) -> (r: RenderPipelineSpec)
    ensures
        r.label@ == "bor3d_sprite3d_render_pipeline"@,
        r.layouts@ == seq![LayoutSlot::View, LayoutSlot::Image, LayoutSlot::Sprite3d],
        r.vertex_entry_point@ == "vertex"@,
        r.vertex_shader_defs@ == seq![billboard_def(key)],
        r.vertex_buffers@.len() == 0,
        r.fragment_entry_point@ == "fragment"@,
        r.fragment_shader_defs@ == seq![billboard_def(key)],
        r.color_format == ColorFormat::BevyDefault,
        r.alpha_blending,
        r.depth == Option::Some(DepthSpec { write_enabled: false, compare: DepthCompare::Greater }),
        r.primitive == PrimitiveSpec::Default,
        r.sample_count == msaa_samples(key.msaa),
        r.sample_mask == u64::MAX,
        !r.alpha_to_coverage,
        r.color_write_mask == all_channels(),
        r.push_constant_ranges@.len() == 0,
        !r.zero_initialize_workgroup_memory,
{
    let value = key.billboard.shader_value();
    RenderPipelineSpec {
        label: "bor3d_sprite3d_render_pipeline",
        layouts: vec![LayoutSlot::View, LayoutSlot::Image, LayoutSlot::Sprite3d],
        vertex_entry_point: "vertex",
        vertex_shader_defs: vec![ShaderDef { name: "BILLBOARD", value }],
        vertex_buffers: Vec::new(),
        fragment_entry_point: "fragment",
        fragment_shader_defs: vec![ShaderDef { name: "BILLBOARD", value }],
        color_format: ColorFormat::BevyDefault,
        alpha_blending: true,
        depth: Option::Some(DepthSpec { write_enabled: false, compare: DepthCompare::Greater }),
        primitive: PrimitiveSpec::Default,
        sample_count: key.msaa.samples(),
        sample_mask: u64::MAX,
        alpha_to_coverage: false,
        color_write_mask: ColorWriteMask::all(),
        push_constant_ranges: Vec::new(),
        zero_initialize_workgroup_memory: false,
    }
}

/// Two keys that specialize to the same sample count and the same `BILLBOARD`
/// definition are the same key: the pipeline cache never hands one key's pipeline
/// to another.
pub proof fn lemma_sprite3d_key_determined(a: Sprite3dPipelineKey, b: Sprite3dPipelineKey)
    requires
        msaa_samples(a.msaa) == msaa_samples(b.msaa),
        billboard_def(a) == billboard_def(b),
    ensures
        a == b,
{
}

/// Number of indices of the sprite quad.
pub const QUAD_INDICES_LEN: usize = 6;

/// The two triangles of the sprite quad, as indices into its four corners.
pub open spec fn quad_indices() -> Seq<u32> {
    seq![2u32, 0, 1, 1, 3, 2]
}

/// The contents of the sprite index buffer.
pub fn sprite3d_quad_indices() -> (r: Vec<u32>)
    ensures
        r@ == quad_indices(),
        r@.len() == QUAD_INDICES_LEN,
{
    let r = vec![2u32, 0, 1, 1, 3, 2];
    assert(r@ =~= quad_indices());
    r
}

/// The sprite quad names only its four corners, and names each of them.
pub proof fn lemma_quad_indices_well_formed()
    ensures
        indices_in_range(quad_indices(), 4),
        indices_cover(quad_indices(), 4),
{
    let q = quad_indices();
    assert forall|v: nat| v < 4 implies #[trigger] q.contains(v as u32) by {
        if v == 0 {
            assert(q[1] == 0);
        } else if v == 1 {
            assert(q[2] == 1);
        } else if v == 2 {
            assert(q[0] == 2);
        } else {
            assert(q[4] == 3);
        }
    }
}

/// Sets the view bind group at slot `I` with the view's uniform offset.
pub struct SetSprite3dViewBindGroup<const I: usize>;

/// Binding a bind group at a slot, with its dynamic offsets.
pub struct SetBindGroup {
    pub index: usize,
    pub dynamic_offsets: Vec<u32>,
}

impl<const I: usize> SetSprite3dViewBindGroup<I> {
    /// Binds the view bind group at slot `I`, offset to the view's uniform.
    pub fn render(view_uniform_offset: u32) -> (r: SetBindGroup)
        ensures
            r.index == I,
            r.dynamic_offsets@ == seq![view_uniform_offset],
    {
        SetBindGroup { index: I, dynamic_offsets: vec![view_uniform_offset] }
    }
}

/// Identifies an image asset: by its runtime index or by its UUID.
#[derive(Debug, Clone, Copy, PartialEq, Eq, Hash, Structural)]
pub enum ImageKey {
    Index(u64),
    Uuid(u128),
}

/// The bind group of each image that sprites draw with.
pub struct ImageBindGroups<V> {
    by_index: HashMap<u64, V>,
    by_uuid: HashMap<u128, V>,
}

impl<V> View for ImageBindGroups<V> {
    type V = Map<ImageKey, V>;

    closed spec fn view(&self) -> Map<ImageKey, V> {
        Map::new(
            |k: ImageKey|
                match k {
                    ImageKey::Index(i) => self.by_index@.contains_key(i),
                    ImageKey::Uuid(u) => self.by_uuid@.contains_key(u),
                },
            |k: ImageKey|
                match k {
                    ImageKey::Index(i) => self.by_index@[i],
                    ImageKey::Uuid(u) => self.by_uuid@[u],
                },
        )
    }
}

impl<V> ImageBindGroups<V> {
    /// No bind groups.
    pub fn new() -> (r: Self)
        ensures
            r@ == Map::<ImageKey, V>::empty(),
    {
        let r = ImageBindGroups { by_index: HashMap::new(), by_uuid: HashMap::new() };
        assert(r@ =~= Map::<ImageKey, V>::empty());
        r
    }

    /// Records the bind group of an image, replacing the one it had.
    pub fn insert(&mut self, key: ImageKey, value: V)
        ensures
            final(self)@ == old(self)@.insert(key, value),
    {
        match key {
            ImageKey::Index(i) => {
                self.by_index.insert(i, value);
            },
            ImageKey::Uuid(u) => {
                self.by_uuid.insert(u, value);
            },
        }
        assert(self@ =~= old(self)@.insert(key, value));
    }

    /// The bind group of an image, if it has one.
    pub fn get(&self, key: &ImageKey) -> (r: Option<&V>)
        ensures
            match r {
                Option::Some(v) => self@.contains_key(*key) && *v == self@[*key],
                Option::None => !self@.contains_key(*key),
            },
    {
        match key {
            ImageKey::Index(i) => self.by_index.get(i),
            ImageKey::Uuid(u) => self.by_uuid.get(u),
        }
    }
}

/// Reading an image's bind group gives back the one recorded last for it; recording
/// one for an image leaves the others as they were.
pub proof fn lemma_bind_group_read_after_insert<V>(
    before: Map<ImageKey, V>,
    after: Map<ImageKey, V>,
    key: ImageKey,
    value: V,
    other: ImageKey,
)
    requires
        after == before.insert(key, value),
    ensures
        after.contains_key(key) && after[key] == value,
        other != key ==> (after.contains_key(other) == before.contains_key(other)),
        other != key && before.contains_key(other) ==> after[other] == before[other],
{
}

/// Sets the image bind group of a sprite at slot `I`.
pub struct SetSprite3dImageBindGroup<const I: usize>;

impl<const I: usize> SetSprite3dImageBindGroup<I> {
    /// The bind group to set at slot `I` for a sprite whose image is `image`
    /// (`None` when the item has no extracted sprite); `None` means the command skips.
    pub fn render<'a, V>(image: Option<ImageKey>, groups: &'a ImageBindGroups<V>) -> (r: Option<&'a V>)
        ensures
            match image {
                Option::None => r is None,
                Option::Some(k) => match r {
                    Option::Some(v) => groups@.contains_key(k) && *v == groups@[k],
                    Option::None => !groups@.contains_key(k),
                },
            },
    {
        match image {
            Option::None => Option::None,
            Option::Some(k) => groups.get(&k),
        }
    }
}

/// Sets the per-sprite bind group at slot `I`.
pub struct SetSprite3dBindGroup<const I: usize>;

impl<const I: usize> SetSprite3dBindGroup<I> {
    /// A sprite without a bind group is skipped; otherwise its bind group is set at
    /// slot `I`.
    pub fn render(has_bind_group: bool) -> (r: CommandOutcome)
        ensures
            r == (if has_bind_group {
                CommandOutcome::Success
            } else {
                CommandOutcome::Skip
            }),
    {
        if has_bind_group {
            CommandOutcome::Success
        } else {
            CommandOutcome::Skip
        }
    }
}

/// Draws the sprite quad.
pub struct DrawSprite3d;

impl DrawSprite3d {
    /// One instance of the whole sprite index buffer.
    pub fn render() -> (r: DrawIndexed)
        ensures
            r == (DrawIndexed {
                indices_start: 0,
                indices_end: QUAD_INDICES_LEN as u32,
                base_vertex: 0,
                instances_start: 0,
                instances_end: 1,
            }),
            draw_covers(r, quad_indices().len()),
            draw_within(r, quad_indices().len()),
    {
        DrawIndexed {
            indices_start: 0,
            indices_end: QUAD_INDICES_LEN as u32,
            base_vertex: 0,
            instances_start: 0,
            instances_end: 1,
        }
    }
}

} // verus!
