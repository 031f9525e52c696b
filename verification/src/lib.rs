//! Verified core of a Bevy plugin that draws sprites and billboards in 3D space.
//!
//! The decisions the plugin takes every frame (which images to turn into array
//! textures, which pipeline a sprite needs, which phase items to queue, how a quad is
//! expanded into vertices) live here as functions over plain values; the
//! Bevy systems that read the world and talk to the GPU hand them their inputs.

pub mod billboard_mode;
pub mod array_layers;
pub mod pipeline_spec;
pub mod render_command;
pub mod phase_queue;
pub mod sprite3d_render;
pub mod billboard_pipeline;
pub mod billboard_phase;
pub mod new_billboard;
