//! The vertex record and its image in device memory.

use vstd::prelude::*;

verus! {

/// Number of 32-bit words in one vertex record.
pub const VERTEX_WORDS: usize = 11;

/// Size of one vertex record in bytes.
pub const VERTEX_STRIDE: usize = 44;

/// One vertex, as the device reads it.
///
/// Every component is the IEEE-754 binary32 bit pattern of a coordinate. The
/// fields lie in memory in declaration order without padding: position at byte
/// 0, normal at byte 12, colour at byte 24, texture coordinates at byte 36.
#[derive(Debug, Clone, Copy, PartialEq, Eq)]
pub struct Vertex {
    pub position: [u32; 3],
    pub normals: [u32; 3],
    pub color: [u32; 3],
    pub texture_coordinates: [u32; 2],
}

impl Vertex {
    /// The record as a run of words, in memory order.
    pub open spec fn words(self) -> Seq<u32> {
        self.position@ + self.normals@ + self.color@ + self.texture_coordinates@
    }
}

impl Default for Vertex {
    /// The vertex whose every component is `+0.0`.
    fn default() -> (vertex: Vertex)
        ensures
            vertex.words() == Seq::new(VERTEX_WORDS as nat, |k: int| 0u32),
    {
        let vertex = Vertex {
            position: [0, 0, 0],
            normals: [0, 0, 0],
            color: [0, 0, 0],
            texture_coordinates: [0, 0],
        };
        assert(vertex.words() =~= Seq::new(VERTEX_WORDS as nat, |k: int| 0u32));
        vertex
    }
}

/// The words of a run of vertices, one record after the other.
pub open spec fn flatten(vertices: Seq<Vertex>) -> Seq<u32>
    decreases vertices.len(),
{
    if vertices.len() == 0 {
        Seq::empty()
    } else {
        flatten(vertices.drop_last()) + vertices.last().words()
    }
}

/// Every record takes [`VERTEX_WORDS`] words, and word `k` of vertex `i`
/// stands at index `11 * i + k`.
pub proof fn lemma_flatten_index(vertices: Seq<Vertex>, i: int, k: int)
    requires
        0 <= i < vertices.len(),
        0 <= k < VERTEX_WORDS,
    ensures
        flatten(vertices).len() == VERTEX_WORDS * vertices.len(),
        flatten(vertices)[VERTEX_WORDS * i + k] == vertices[i].words()[k],
    decreases vertices.len(),
{
    lemma_flatten_len(vertices);
    lemma_flatten_len(vertices.drop_last());
    if i < vertices.len() - 1 {
        lemma_flatten_index(vertices.drop_last(), i, k);
    }
}

/// The flattened run holds [`VERTEX_WORDS`] words per vertex.
pub proof fn lemma_flatten_len(vertices: Seq<Vertex>)
    ensures
        flatten(vertices).len() == VERTEX_WORDS * vertices.len(),
    decreases vertices.len(),
{
    if vertices.len() > 0 {
        lemma_flatten_len(vertices.drop_last());
    }
}

/// Lays `vertices` out as the device will read them.
pub fn vertex_words(vertices: &[Vertex]) -> (words: Vec<u32>)
    ensures
        words@ == flatten(vertices@),
{
    let mut words: Vec<u32> = Vec::new();
    let mut i: usize = 0;
    while i < vertices.len()
        invariant
            i <= vertices.len(),
            words@ == flatten(vertices@.take(i as int)),
        decreases vertices.len() - i,
    {
        let v = vertices[i];
        words.push(v.position[0]);
        words.push(v.position[1]);
        words.push(v.position[2]);
        words.push(v.normals[0]);
        words.push(v.normals[1]);
        words.push(v.normals[2]);
        words.push(v.color[0]);
        words.push(v.color[1]);
        words.push(v.color[2]);
        words.push(v.texture_coordinates[0]);
        words.push(v.texture_coordinates[1]);
        proof {
            let before = vertices@.take(i as int);
            let after = vertices@.take(i + 1);
            assert(after.drop_last() =~= before);
            assert(after.last() == v);
            assert(words@ =~= flatten(before) + v.words());
        }
        i += 1;
    }
    assert(vertices@.take(i as int) =~= vertices@);
    words
}

} // verus!
