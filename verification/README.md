# bevy_bor3d

Sprites and billboards in 3D space for Bevy, with the plugin's decisions verified in Verus.

- `src/` is the verified library. It decides, over plain values, what the plugin's
  systems do each frame: which images become array textures (`array_layers`), how a
  sprite's billboard mode reaches the render world (`billboard_mode`), the bind group
  layouts and render pipelines each key specializes to (`pipeline_spec`,
  `sprite3d_render`, `billboard_pipeline`, `billboard_phase`, `new_billboard`), which
  items the queue step adds to each view's transparent phase (`phase_queue`), and which
  indices and vertices the quads are drawn with.
- `app/` holds the Bevy plugins, components and systems. They read the ECS world and
  the GPU state, hand it to the library, and turn its answers into engine calls;
  everything that works on floats (transforms, vertex positions, uniforms) stays there.
- `tests/` runs the library on concrete values.

The bind groups of sprite images are kept in `ImageBindGroups`, two std hash maps keyed
by the integer forms of an image's asset id (its runtime index or its UUID). The
engine's own map holds engine asset ids and GPU bind groups, neither of which the
verified library can name, so the library keys its map by integers and leaves the
value type generic.
