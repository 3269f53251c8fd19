//! An in-memory, seekable byte destination.
//!
//! The header writer needs a sink that supports absolute seeks, a query for
//! the current offset, a seek to the end, and writes at the current offset.
//! `Buffer` provides exactly that over an owned byte vector, mirroring how a
//! pre-sized device or file behaves: writing past the end grows the
//! contents, and the bytes it already held are preserved unless overwritten.

use crate::layout::splice;
use vstd::prelude::*;

verus! {

/// A growable byte buffer with a cursor, used as the destination of a
/// header write.
pub struct Buffer {
    data: Vec<u8>,
    pos: usize,
}

impl Buffer {
    /// The bytes the destination currently holds.
    pub closed spec fn bytes(&self) -> Seq<u8> {
        self.data@
    }

    /// The current cursor offset.
    pub closed spec fn cursor(&self) -> int {
        self.pos as int
    }

    /// Wraps an owned byte vector; the cursor starts at offset 0.
    pub fn new(data: Vec<u8>) -> (r: Buffer)
        ensures
            r.bytes() == data@,
            r.cursor() == 0,
    {
        Buffer { data, pos: 0 }
    }

    /// The number of bytes currently held.
    pub fn len(&self) -> (r: usize)
        ensures
            r == self.bytes().len(),
    {
        self.data.len()
    }

    /// The current cursor offset.
    pub fn stream_position(&self) -> (r: usize)
        ensures
            r == self.cursor(),
    {
        self.pos
    }

    /// Moves the cursor to the absolute offset `pos`.
    pub fn seek_to(&mut self, pos: usize)
        ensures
            final(self).bytes() == old(self).bytes(),
            final(self).cursor() == pos,
    {
        self.pos = pos;
    }

    /// Moves the cursor to the end of the current contents.
    pub fn seek_end(&mut self)
        ensures
            final(self).bytes() == old(self).bytes(),
            final(self).cursor() == old(self).bytes().len(),
    {
        self.pos = self.data.len();
    }

    /// Writes `src` at the cursor: bytes under the write are replaced, a gap
    /// between the current end of the contents and the cursor is zero-filled,
    /// and the contents grow when the write runs past their end. The cursor
    /// advances to the end of the written range.
    pub fn write_bytes(&mut self, src: &Vec<u8>)
        requires
            old(self).cursor() + src@.len() <= usize::MAX,
        ensures
            final(self).bytes() == splice(old(self).bytes(), old(self).cursor(), src@),
            final(self).cursor() == old(self).cursor() + src@.len(),
    {
        let end: usize = self.pos + src.len();
        while self.data.len() < end
            invariant
                old(self).data@.len() <= self.data@.len(),
                self.data@.len() <= end || self.data@.len() == old(self).data@.len(),
                forall|i: int|
                    0 <= i < old(self).data@.len() ==> self.data@[i] == old(self).data@[i],
                forall|i: int|
                    old(self).data@.len() <= i < self.data@.len() ==> self.data@[i] == 0u8,
                self.pos == old(self).pos,
            decreases end - self.data@.len(),
        {
            self.data.push(0u8);
        }
        let mut i: usize = 0;
        while i < src.len()
            invariant
                i <= src@.len(),
                self.pos == old(self).pos,
                self.pos + src@.len() == end,
                end <= self.data@.len(),
                self.data@.len() == (if old(self).data@.len() >= end {
                    old(self).data@.len()
                } else {
                    end as nat
                }),
                forall|j: int| 0 <= j < i ==> self.data@[self.pos + j] == src@[j],
                forall|j: int|
                    0 <= j < self.data@.len() && !(self.pos <= j < self.pos + i)
                        ==> self.data@[j] == (if j < old(self).data@.len() {
                        old(self).data@[j]
                    } else {
                        0u8
                    }),
            decreases src@.len() - i,
        {
            self.data.set(self.pos + i, src[i]);
            i += 1;
        }
        self.pos = end;
        proof {
            assert(self.data@ =~= splice(old(self).bytes(), old(self).cursor(), src@));
        }
    }

    /// Hands the contents back, consuming the buffer.
    pub fn into_inner(self) -> (r: Vec<u8>)
        ensures
            r@ == self.bytes(),
    {
        self.data
    }
}

} // verus!
