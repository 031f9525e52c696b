use bevy_bor3d::array_layers::{sprite3d_layer_update, sprite3d_layers, ArrayTextureQueue};

#[test]
fn zero_layers_count_as_one() {
    assert_eq!(sprite3d_layers(0), 1);
    assert_eq!(sprite3d_layers(1), 1);
    assert_eq!(sprite3d_layers(7), 7);
}

#[test]
fn loaded_single_layer_image_is_reinterpreted() {
    assert_eq!(sprite3d_layer_update(4, true, 1), Some(4));
}

#[test]
fn loading_image_is_left_alone() {
    assert_eq!(sprite3d_layer_update(4, false, 1), None);
}

#[test]
fn array_image_is_left_alone() {
    assert_eq!(sprite3d_layer_update(4, true, 4), None);
    assert_eq!(sprite3d_layer_update(4, true, 2), None);
}

#[test]
fn single_layer_sprite_never_reinterprets() {
    assert_eq!(sprite3d_layer_update(0, true, 1), None);
    assert_eq!(sprite3d_layer_update(1, true, 1), None);
}

#[test]
fn layer_update_runs_once() {
    let first = sprite3d_layer_update(3, true, 1).unwrap();
    assert_eq!(first, 3);
    assert_eq!(sprite3d_layer_update(3, true, first), None);
}

#[test]
fn billboard_without_layers_does_nothing() {
    let mut queue: ArrayTextureQueue<u8> = ArrayTextureQueue::new();
    assert_eq!(queue.on_billboard_added(None, Some(1), false), None);
    assert_eq!(queue.on_billboard_added(None, Some(1), true), None);
    assert_eq!(queue.len(), 0);
}

#[test]
fn billboard_without_sprite_does_nothing() {
    let mut queue: ArrayTextureQueue<u8> = ArrayTextureQueue::new();
    assert_eq!(queue.on_billboard_added(Some(4), None, false), None);
    assert_eq!(queue.len(), 0);
}

#[test]
fn billboard_on_loaded_image_reinterprets_now() {
    let mut queue: ArrayTextureQueue<u8> = ArrayTextureQueue::new();
    assert_eq!(queue.on_billboard_added(Some(4), Some(9), true), Some(4));
    assert_eq!(queue.len(), 0);
}

#[test]
fn billboard_on_loading_image_waits() {
    let mut queue: ArrayTextureQueue<u8> = ArrayTextureQueue::new();
    assert_eq!(queue.on_billboard_added(Some(4), Some(9), false), None);
    assert_eq!(queue.on_billboard_added(Some(2), Some(5), false), None);
    assert_eq!(queue.entries(), &vec![(9, 4), (5, 2)]);
}

#[test]
fn processing_splits_queue_in_order() {
    let mut queue: ArrayTextureQueue<u8> = ArrayTextureQueue::new();
    for (id, layers) in [(1u8, 2u32), (2, 3), (3, 4), (4, 5)] {
        queue.on_billboard_added(Some(layers), Some(id), false);
    }
    let ready = queue.process(&vec![true, false, true, false]);
    assert_eq!(ready, vec![(1, 2), (3, 4)]);
    assert_eq!(queue.entries(), &vec![(2, 3), (4, 5)]);
    assert_eq!(ready.len() + queue.len(), 4);
}

#[test]
fn processing_with_everything_loaded_drains_queue() {
    let mut queue: ArrayTextureQueue<u8> = ArrayTextureQueue::new();
    queue.on_billboard_added(Some(2), Some(7), false);
    queue.on_billboard_added(Some(3), Some(8), false);
    let ready = queue.process(&vec![true, true]);
    assert_eq!(ready, vec![(7, 2), (8, 3)]);
    assert_eq!(queue.len(), 0);
}

#[test]
fn processing_with_nothing_loaded_keeps_queue() {
    let mut queue: ArrayTextureQueue<u8> = ArrayTextureQueue::new();
    queue.on_billboard_added(Some(2), Some(7), false);
    queue.on_billboard_added(Some(3), Some(8), false);
    let ready = queue.process(&vec![false, false]);
    assert!(ready.is_empty());
    assert_eq!(queue.entries(), &vec![(7, 2), (8, 3)]);
}

#[test]
fn processing_empty_queue() {
    let mut queue: ArrayTextureQueue<u8> = ArrayTextureQueue::new();
    assert!(queue.process(&vec![]).is_empty());
    assert_eq!(queue.len(), 0);
}
