use bevy_bor3d::billboard_mode::ExtractedBillboard;
use bevy_bor3d::billboard_phase;
use bevy_bor3d::billboard_pipeline::{
    billboard_pipeline_layouts, specialize_billboard_pipeline, BillboardPipelineKey,
};
use bevy_bor3d::new_billboard;
use bevy_bor3d::pipeline_spec::{
    ColorWriteMask,
    BindingSpec, ColorFormat, DepthCompare, DepthSpec, LayoutSlot, Msaa, PrimitiveSpec,
    ShaderStages, VertexAttribute, VertexFormat, VertexLayout, VertexStepMode,
};
use bevy_bor3d::sprite3d_render::{
    specialize_sprite3d_pipeline, sprite3d_pipeline_layouts, Sprite3dPipelineKey,
};

#[test]
fn msaa_sample_counts() {
    assert_eq!(Msaa::Off.samples(), 1);
    assert_eq!(Msaa::Sample2.samples(), 2);
    assert_eq!(Msaa::Sample4.samples(), 4);
    assert_eq!(Msaa::Sample8.samples(), 8);
    assert_eq!(Msaa::default(), Msaa::Sample4);
}

#[test]
fn packed_layout_offsets() {
    let layout = VertexLayout::from_vertex_formats(
        VertexStepMode::Vertex,
        vec![VertexFormat::Float32x3, VertexFormat::Float32x2, VertexFormat::Float32x4],
    );
    assert_eq!(layout.array_stride, 36);
    assert_eq!(layout.step_mode, VertexStepMode::Vertex);
    assert_eq!(
        layout.attributes,
        vec![
            VertexAttribute { format: VertexFormat::Float32x3, offset: 0, shader_location: 0 },
            VertexAttribute { format: VertexFormat::Float32x2, offset: 12, shader_location: 1 },
            VertexAttribute { format: VertexFormat::Float32x4, offset: 20, shader_location: 2 },
        ]
    );
}

#[test]
fn packed_layout_of_nothing() {
    let layout = VertexLayout::from_vertex_formats(VertexStepMode::Instance, vec![]);
    assert_eq!(layout.array_stride, 0);
    assert_eq!(layout.step_mode, VertexStepMode::Instance);
    assert!(layout.attributes.is_empty());
}

#[test]
fn sprite3d_layouts() {
    let (view, image, sprite) = sprite3d_pipeline_layouts();
    assert_eq!(view.label, "bor3d_sprite3d_view_layout");
    assert_eq!(view.entries.len(), 1);
    assert_eq!(view.entries[0].visibility, ShaderStages::VertexFragment);
    assert_eq!(view.entries[0].ty, BindingSpec::ViewUniform { dynamic_offset: true });
    assert_eq!(image.label, "bor3d_sprite3d_image_layout");
    assert_eq!(image.entries[0].ty, BindingSpec::Texture2dArray);
    assert_eq!(image.entries[1].binding, 1);
    assert_eq!(image.entries[1].ty, BindingSpec::FilteringSampler);
    assert_eq!(sprite.label, "bor3d_sprite3d_layout");
    assert_eq!(sprite.entries[0].visibility, ShaderStages::Vertex);
    assert_eq!(sprite.entries[0].ty, BindingSpec::Sprite3dUniform);
}

#[test]
fn sprite3d_pipeline_for_look_at_sprite() {
    let key = Sprite3dPipelineKey { msaa: Msaa::Sample8, billboard: ExtractedBillboard::LookAt };
    let spec = specialize_sprite3d_pipeline(key);
    assert_eq!(spec.label, "bor3d_sprite3d_render_pipeline");
    assert_eq!(spec.layouts, vec![LayoutSlot::View, LayoutSlot::Image, LayoutSlot::Sprite3d]);
    assert_eq!(spec.vertex_shader_defs.len(), 1);
    assert_eq!(spec.vertex_shader_defs[0].name, "BILLBOARD");
    assert_eq!(spec.vertex_shader_defs[0].value, 2);
    assert_eq!(spec.fragment_shader_defs, spec.vertex_shader_defs);
    assert!(spec.vertex_buffers.is_empty());
    assert_eq!(spec.vertex_entry_point, "vertex");
    assert_eq!(spec.fragment_entry_point, "fragment");
    assert_eq!(spec.color_format, ColorFormat::BevyDefault);
    assert!(spec.alpha_blending);
    assert_eq!(spec.depth, Some(DepthSpec { write_enabled: false, compare: DepthCompare::Greater }));
    assert_eq!(spec.primitive, PrimitiveSpec::Default);
    assert_eq!(spec.sample_count, 8);
    assert_eq!(spec.sample_mask, u64::MAX);
    assert!(!spec.alpha_to_coverage);
    assert_eq!(
        spec.color_write_mask,
        ColorWriteMask { red: true, green: true, blue: true, alpha: true }
    );
    assert!(spec.push_constant_ranges.is_empty());
    assert!(!spec.zero_initialize_workgroup_memory);
}

#[test]
fn sprite3d_pipelines_differ_by_key() {
    let a = specialize_sprite3d_pipeline(Sprite3dPipelineKey {
        msaa: Msaa::Off,
        billboard: ExtractedBillboard::Disabled,
    });
    let b = specialize_sprite3d_pipeline(Sprite3dPipelineKey {
        msaa: Msaa::Off,
        billboard: ExtractedBillboard::Forward,
    });
    assert_eq!(a.sample_count, 1);
    assert_eq!(a.vertex_shader_defs[0].value, 0);
    assert_eq!(b.vertex_shader_defs[0].value, 1);
}

#[test]
fn billboard_layouts() {
    let (view, material) = billboard_pipeline_layouts();
    assert_eq!(view.label, "billboard_view_layout");
    assert_eq!(view.entries.len(), 2);
    assert_eq!(view.entries[1].ty, BindingSpec::GlobalsUniform);
    assert_eq!(material.label, "billboard_material_layout");
    assert_eq!(material.entries[0].ty, BindingSpec::Texture2d);
    assert_eq!(material.entries[0].visibility, ShaderStages::Fragment);
}

#[test]
fn billboard_pipeline_hdr_and_msaa() {
    let hdr = specialize_billboard_pipeline(BillboardPipelineKey { msaa: 4, hdr: true });
    assert_eq!(hdr.color_format, ColorFormat::Hdr);
    assert_eq!(hdr.sample_count, 4);
    assert_eq!(hdr.color_write_mask, ColorWriteMask::all());
    assert!(hdr.push_constant_ranges.is_empty());
    let ldr = specialize_billboard_pipeline(BillboardPipelineKey { msaa: 1, hdr: false });
    assert_eq!(ldr.color_format, ColorFormat::BevyDefault);
    assert_eq!(ldr.sample_count, 1);
    assert_eq!(ldr.label, "billboard_pipeline");
    assert_eq!(ldr.layouts, vec![LayoutSlot::View, LayoutSlot::Material]);
    assert!(ldr.depth.is_none());
    assert!(ldr.alpha_blending);
    assert_eq!(ldr.primitive, PrimitiveSpec::TriangleListCcwNoCull);
    let layout = &ldr.vertex_buffers[0];
    assert_eq!(layout.array_stride, 48);
    assert_eq!(layout.attributes[1].offset, 16);
    assert_eq!(layout.attributes[2].offset, 32);
    assert_eq!(layout.attributes[2].shader_location, 2);
}

#[test]
fn billboard_phase_pipeline_from_render_module() {
    let spec = billboard_phase::specialize_billboard_phase_pipeline(Msaa::Sample2);
    assert_eq!(spec.label, "custom render pipeline");
    assert!(spec.layouts.is_empty());
    assert_eq!(spec.vertex_buffers[0].array_stride, 32);
    assert_eq!(spec.vertex_buffers[0].attributes[1].offset, 16);
    assert_eq!(spec.vertex_buffers[0].attributes[1].shader_location, 1);
    assert!(!spec.alpha_blending);
    assert_eq!(spec.depth, Some(DepthSpec { write_enabled: false, compare: DepthCompare::Always }));
    assert_eq!(spec.sample_count, 2);
    assert_eq!(spec.color_write_mask, ColorWriteMask::all());
    assert!(!spec.zero_initialize_workgroup_memory);
}

#[test]
fn billboard_phase_pipeline_from_new_module() {
    let spec = new_billboard::specialize_billboard_phase_pipeline(Msaa::Sample4);
    assert_eq!(spec.label, "billboard_render_pipeline");
    assert_eq!(spec.layouts, vec![LayoutSlot::View, LayoutSlot::Image]);
    let layout = &spec.vertex_buffers[0];
    assert_eq!(layout.array_stride, 20);
    assert_eq!(layout.attributes[0].format, VertexFormat::Float32x3);
    assert_eq!(layout.attributes[1].format, VertexFormat::Float32x2);
    assert_eq!(layout.attributes[1].offset, 12);
    assert!(spec.alpha_blending);
    assert_eq!(spec.sample_count, 4);
    assert_eq!(spec.color_write_mask, ColorWriteMask::all());
    let (view, image) = new_billboard::billboard_phase_layouts();
    assert_eq!(view.label, "billboard_view_layout");
    assert_eq!(image.label, "billboard_image_layout");
    assert_eq!(image.entries[0].ty, BindingSpec::Texture2d);
}
