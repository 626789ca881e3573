//! The vertex buffer: one block of device memory holding vertex records.

use vstd::prelude::*;
use crate::command::{Command, CommandBuffer, CommandView};
use crate::vertex::{flatten, vertex_words, Vertex, VERTEX_STRIDE};

verus! {

/// Owner of one device buffer filled with vertex records.
///
/// The contents are fixed at creation. The buffer is released by
/// [`Vbo::destroy`], which consumes the owner, so it is released at most once
/// and cannot be used afterwards.
#[derive(Debug)]
pub struct Vbo {
    id: u32,
}

impl Vbo {
    /// The device's name for the buffer.
    pub closed spec fn handle(&self) -> u32 {
        self.id
    }

    /// Takes ownership of the unused buffer `id` and records the upload of
    /// `vertices` into it: storage of 44 bytes per vertex, filled with the
    /// records in order.
    ///
    /// The byte size is handed to the device as a signed pointer-sized
    /// integer, hence the bound; every slice that exists in memory meets it.
    pub fn new(out: &mut CommandBuffer, id: u32, vertices: &[Vertex]) -> (vbo: Vbo)
        requires
            vertices@.len() * VERTEX_STRIDE <= isize::MAX,
        ensures
            vbo.handle() == id,
            final(out)@ == old(out)@.push(
                CommandView::BufferData {
                    buffer: id,
                    byte_len: vertices@.len() * VERTEX_STRIDE,
                    words: flatten(vertices@),
                },
            ),
    {
        let byte_len: usize = vertices.len() * VERTEX_STRIDE;
        out.push(Command::BufferData { buffer: id, byte_len, words: vertex_words(vertices) });
        Vbo { id }
    }

    /// The device's name for the buffer.
    pub(crate) fn id(&self) -> (id: u32)
        ensures
            id == self.handle(),
    {
        self.id
    }

    /// Records the release of the buffer.
    pub fn destroy(self, out: &mut CommandBuffer)
        ensures
            final(out)@ == old(out)@.push(CommandView::DeleteBuffer { buffer: self.handle() }),
    {
        out.push(Command::DeleteBuffer { buffer: self.id });
    }
}

} // verus!
