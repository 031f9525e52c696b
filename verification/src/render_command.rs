use vstd::prelude::*;

verus! {

/// What a render command reports after it ran.
#[derive(Debug, Clone, Copy, PartialEq, Eq, Hash, Structural)]
pub enum CommandOutcome {
    Success,
    Skip,
}

/// An indexed draw of `indices_start..indices_end` with the given base vertex, for
/// instances `instances_start..instances_end`.
#[derive(Debug, Clone, Copy, PartialEq, Eq, Hash, Structural)]
pub struct DrawIndexed {
    pub indices_start: u32,
    pub indices_end: u32,
    pub base_vertex: i32,
    pub instances_start: u32,
    pub instances_end: u32,
}

/// The indices a draw reads lie inside an index buffer of `len` entries.
pub open spec fn draw_within(draw: DrawIndexed, len: nat) -> bool {
    draw.indices_start <= draw.indices_end <= len
}

/// A draw reads every entry of an index buffer of `len` entries.
pub open spec fn draw_covers(draw: DrawIndexed, len: nat) -> bool {
    draw.indices_start == 0 && draw.indices_end == len
}

/// Every index of a buffer names one of `vertex_count` vertices.
pub open spec fn indices_in_range(indices: Seq<u32>, vertex_count: nat) -> bool {
    forall|i: int| 0 <= i < indices.len() ==> #[trigger] indices[i] < vertex_count
}

/// Every one of `vertex_count` vertices is named by some index of the buffer.
pub open spec fn indices_cover(indices: Seq<u32>, vertex_count: nat) -> bool {
    forall|v: nat| v < vertex_count ==> #[trigger] indices.contains(v as u32)
}

} // verus!
