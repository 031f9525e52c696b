use bevy_bor3d::billboard_phase;
use bevy_bor3d::billboard_pipeline::{
    billboard_quad_vertices, DrawBillboard, SetBillboardTextureBindGroup, SetBillboardViewGroup,
};
use bevy_bor3d::new_billboard;
use bevy_bor3d::phase_queue::{plan_phase_items, PhaseView};
use bevy_bor3d::pipeline_spec::Msaa;
use bevy_bor3d::render_command::{CommandOutcome, DrawIndexed};
use bevy_bor3d::sprite3d_render::{
    sprite3d_quad_indices, DrawSprite3d, ImageBindGroups, ImageKey, SetSprite3dBindGroup,
    SetSprite3dImageBindGroup, SetSprite3dViewBindGroup, QUAD_INDICES_LEN,
};

#[test]
fn sprite_quad_draw_covers_index_buffer() {
    let indices = sprite3d_quad_indices();
    assert_eq!(indices, vec![2, 0, 1, 1, 3, 2]);
    assert_eq!(indices.len(), QUAD_INDICES_LEN);
    let draw = DrawSprite3d::render();
    assert_eq!(
        draw,
        DrawIndexed {
            indices_start: 0,
            indices_end: 6,
            base_vertex: 0,
            instances_start: 0,
            instances_end: 1
        }
    );
    assert_eq!(draw.indices_end as usize, indices.len());
}

#[test]
fn phase_item_draw_covers_index_buffer() {
    let indices = billboard_phase::billboard_phase_item_indices();
    assert_eq!(indices, vec![0, 1, 2]);
    let draw = billboard_phase::DrawBillboardPhaseItem::render();
    assert_eq!(draw.indices_end as usize, indices.len());
}

#[test]
fn new_billboard_draw_covers_index_buffer() {
    let indices = new_billboard::billboard_quad_indices();
    assert_eq!(indices, vec![0, 2, 3, 0, 1, 2]);
    let draw = new_billboard::DrawBillboardPhaseItem::render();
    assert_eq!(
        draw,
        DrawIndexed {
            indices_start: 0,
            indices_end: 6,
            base_vertex: 0,
            instances_start: 0,
            instances_end: 1
        }
    );
    assert_eq!(draw.indices_end as usize, indices.len());
}

#[test]
fn view_bind_group_uses_slot_and_offset() {
    let set = SetSprite3dViewBindGroup::<0>::render(256);
    assert_eq!(set.index, 0);
    assert_eq!(set.dynamic_offsets, vec![256]);
}

#[test]
fn sprite_bind_group_skips_when_missing() {
    assert_eq!(SetSprite3dBindGroup::<2>::render(true), CommandOutcome::Success);
    assert_eq!(SetSprite3dBindGroup::<2>::render(false), CommandOutcome::Skip);
}

#[test]
fn billboard_commands_succeed() {
    assert_eq!(SetBillboardViewGroup::<0>::render(), CommandOutcome::Success);
    assert_eq!(SetBillboardTextureBindGroup::<1>::render(), CommandOutcome::Success);
    assert_eq!(DrawBillboard::render(), CommandOutcome::Success);
}

#[test]
fn image_bind_groups_read_after_insert() {
    let mut groups: ImageBindGroups<&str> = ImageBindGroups::new();
    assert_eq!(groups.get(&ImageKey::Index(3)), None);
    groups.insert(ImageKey::Index(3), "a");
    groups.insert(ImageKey::Uuid(3), "b");
    assert_eq!(groups.get(&ImageKey::Index(3)), Some(&"a"));
    assert_eq!(groups.get(&ImageKey::Uuid(3)), Some(&"b"));
    groups.insert(ImageKey::Index(3), "c");
    assert_eq!(groups.get(&ImageKey::Index(3)), Some(&"c"));
    assert_eq!(groups.get(&ImageKey::Uuid(3)), Some(&"b"));
    assert_eq!(groups.get(&ImageKey::Index(4)), None);
}

#[test]
fn image_bind_group_command() {
    let mut groups: ImageBindGroups<u32> = ImageBindGroups::new();
    groups.insert(ImageKey::Index(1), 10);
    assert_eq!(SetSprite3dImageBindGroup::<1>::render(None, &groups), None);
    assert_eq!(SetSprite3dImageBindGroup::<1>::render(Some(ImageKey::Index(2)), &groups), None);
    assert_eq!(
        SetSprite3dImageBindGroup::<1>::render(Some(ImageKey::Index(1)), &groups),
        Some(&10)
    );
}

#[test]
fn quad_vertices_follow_indices() {
    let positions = [10u8, 11, 12, 13];
    let uvs = ['a', 'b', 'c', 'd'];
    let vertices = billboard_quad_vertices(&positions, &uvs);
    assert_eq!(
        vertices,
        vec![(10, 'a'), (12, 'c'), (13, 'd'), (10, 'a'), (11, 'b'), (12, 'c')]
    );
}

#[test]
fn queue_plan_skips_views_without_phase_and_entities_without_data() {
    let views = vec![
        PhaseView { has_phase: true, msaa: Msaa::Sample4, visible: vec![(1u32, Some('x')), (2, None), (3, Some('y'))] },
        PhaseView { has_phase: false, msaa: Msaa::Off, visible: vec![(4u32, Some('z'))] },
        PhaseView { has_phase: true, msaa: Msaa::Off, visible: vec![(5u32, Some('w'))] },
    ];
    let plan = plan_phase_items(&views);
    let summary: Vec<(usize, Msaa, u32, char)> =
        plan.iter().map(|q| (q.view, q.msaa, q.entity, q.data)).collect();
    assert_eq!(
        summary,
        vec![
            (0, Msaa::Sample4, 1, 'x'),
            (0, Msaa::Sample4, 3, 'y'),
            (2, Msaa::Off, 5, 'w'),
        ]
    );
}

#[test]
fn queue_plan_of_no_views() {
    let views: Vec<PhaseView<u32, bool>> = vec![];
    assert!(plan_phase_items(&views).is_empty());
}
