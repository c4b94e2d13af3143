//! Resource identifiers, resource states and the shared key space.
use vstd::prelude::*;

verus! {

/// Index of a buffer in the graph's buffer pool.
#[derive(Clone, Copy, Debug, PartialEq, Eq, Structural)]
pub struct BufferId(pub usize);

/// Index of an image in the graph's image pool.
#[derive(Clone, Copy, Debug, PartialEq, Eq, Structural)]
pub struct ImageId(pub usize);

/// Index of a node in the graph.
#[derive(Clone, Copy, Debug, PartialEq, Eq, Structural)]
pub struct NodeId(pub usize);

/// State a node requires of a buffer: access flags and pipeline stages, as bits.
#[derive(Clone, Copy, Debug, PartialEq, Eq, Structural)]
pub struct BufferState {
    pub access: u32,
    pub stages: u32,
}

/// State a node requires of an image: access flags, layout and pipeline stages.
#[derive(Clone, Copy, Debug, PartialEq, Eq, Structural)]
pub struct ImageState {
    pub access: u32,
    pub layout: u32,
    pub stages: u32,
}

/// Key of a buffer in the key space shared by buffers and images.
pub open spec fn buffer_key_spec(id: BufferId) -> int {
    id.0 as int
}

/// Key of an image: images follow all `buffer_count` buffers of the graph.
pub open spec fn image_key_spec(id: ImageId, buffer_count: int) -> int {
    id.0 + buffer_count
}

/// Key under which the schedule knows a buffer.
pub fn buffer_key(id: BufferId) -> (r: usize)
    ensures
        r == buffer_key_spec(id),
{
    id.0
}

/// Key under which the schedule knows an image of a graph with `buffer_count` buffers.
pub fn image_key(id: ImageId, buffer_count: usize) -> (r: usize)
    requires
        id.0 + buffer_count <= usize::MAX,
    ensures
        r == image_key_spec(id, buffer_count as int),
{
    id.0 + buffer_count
}

/// Keys never collide: every buffer of the graph has a key below the buffer
/// count, every image one at or above it, and each kind of key determines its
/// identifier.
pub proof fn lemma_keys_disjoint(b: BufferId, i: ImageId, j: ImageId, buffer_count: nat)
    requires
        b.0 < buffer_count,
    ensures
        buffer_key_spec(b) < buffer_count,
        image_key_spec(i, buffer_count as int) >= buffer_count,
        buffer_key_spec(b) != image_key_spec(i, buffer_count as int),
        image_key_spec(i, buffer_count as int) == image_key_spec(j, buffer_count as int)
            ==> i == j,
{
}

} // verus!
