//! The index buffer: one block of device memory holding 32-bit indices.

use vstd::prelude::*;
use crate::command::{Command, CommandBuffer, CommandView};

verus! {

/// Size of one index in bytes.
pub const INDEX_SIZE: usize = 4;

/// Owner of one device buffer filled with indices, and of their number.
///
/// The contents are fixed at creation. The buffer is released by
/// [`Ibo::destroy`], which consumes the owner.
#[derive(Debug)]
pub struct Ibo {
    id: u32,
    count: i32,
}

impl Ibo {
    #[verifier::type_invariant]
    spec fn well_formed(self) -> bool {
        0 <= self.count
    }

    /// The device's name for the buffer.
    pub closed spec fn handle(&self) -> u32 {
        self.id
    }

    /// Number of indices in the buffer.
    pub closed spec fn index_count(&self) -> nat {
        self.count as nat
    }

    /// Takes ownership of the unused buffer `id` and records the upload of
    /// `indices` into it: storage of 4 bytes per index, filled in order.
    ///
    /// A draw call takes the number of indices as a signed 32-bit integer and
    /// the upload takes the byte size as a signed pointer-sized one, hence the
    /// two bounds.
    pub fn new(out: &mut CommandBuffer, id: u32, indices: &[u32]) -> (ibo: Ibo)
        requires
            indices@.len() <= i32::MAX,
            indices@.len() * INDEX_SIZE <= isize::MAX,
        ensures
            ibo.handle() == id,
            ibo.index_count() == indices@.len(),
            final(out)@ == old(out)@.push(
                CommandView::BufferData {
                    buffer: id,
                    byte_len: indices@.len() * INDEX_SIZE,
                    words: indices@,
                },
            ),
    {
        let byte_len: usize = indices.len() * INDEX_SIZE;
        let words = copy_of(indices);
        out.push(Command::BufferData { buffer: id, byte_len, words });
        Ibo { id, count: indices.len() as i32 }
    }

    /// Records making this buffer the element-array buffer of the bound
    /// vertex array.
    pub fn bind(&self, out: &mut CommandBuffer)
        ensures
            final(out)@ == old(out)@.push(CommandView::BindElementBuffer { buffer: self.handle() }),
    {
        out.push(Command::BindElementBuffer { buffer: self.id });
    }

    /// Records taking the element-array buffer of the bound vertex array away.
    pub fn unbind(&self, out: &mut CommandBuffer)
        ensures
            final(out)@ == old(out)@.push(CommandView::BindElementBuffer { buffer: 0 }),
    {
        out.push(Command::BindElementBuffer { buffer: 0 });
    }

    /// Number of indices in the buffer, as a draw call takes it.
    pub fn count(&self) -> (count: i32)
        ensures
            count == self.index_count(),
    {
        proof {
            use_type_invariant(self);
        }
        self.count
    }

    /// The device's name for the buffer.
    pub(crate) fn id(&self) -> (id: u32)
        ensures
            id == self.handle(),
    {
        self.id
    }

    /// Records the release of the buffer.
    pub fn destroy(self, out: &mut CommandBuffer)
        ensures
            final(out)@ == old(out)@.push(CommandView::DeleteBuffer { buffer: self.handle() }),
    {
        out.push(Command::DeleteBuffer { buffer: self.id });
    }
}

/// An owned copy of `words`.
fn copy_of(words: &[u32]) -> (copy: Vec<u32>)
    ensures
        copy@ == words@,
{
    let mut copy: Vec<u32> = Vec::new();
    let mut i: usize = 0;
    while i < words.len()
        invariant
            i <= words.len(),
            copy@ == words@.take(i as int),
        decreases words.len() - i,
    {
        copy.push(words[i]);
        assert(words@.take(i + 1) =~= words@.take(i as int).push(words@[i as int]));
        i += 1;
    }
    assert(words@.take(i as int) =~= words@);
    copy
}

} // verus!
