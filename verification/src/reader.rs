//! A bounds-checked cursor over the bytes of one captured frame.

use crate::error::DecodeError;
use byteorder::{ByteOrder, LittleEndian};
use vstd::prelude::*;
use vstd::slice::slice_subrange;

verus! {

/// The unsigned number that `width` bytes of `s` spell from index `at` on,
/// least significant byte first.
pub open spec fn spec_le(s: Seq<u8>, at: int, width: nat) -> nat
    decreases width,
{
    if width == 0 {
        0
    } else {
        s[at] as nat + 256 * spec_le(s, at + 1, (width - 1) as nat)
    }
}

/// `byteorder::LittleEndian::read_u16`: the number that the first two bytes
/// of `buf` spell, least significant byte first. It panics on a shorter
/// buffer, which the precondition leaves out.
#[verifier::external_body]
fn le_read_u16(buf: &[u8]) -> (value: u16)
    requires
        buf@.len() >= 2,
    ensures
        value as nat == spec_le(buf@, 0, 2),
{
    LittleEndian::read_u16(buf)
}

/// `byteorder::LittleEndian::read_u64`: the number that the first eight
/// bytes of `buf` spell, least significant byte first. It panics on a
/// shorter buffer, which the precondition leaves out.
#[verifier::external_body]
fn le_read_u64(buf: &[u8]) -> (value: u64)
    requires
        buf@.len() >= 8,
    ensures
        value as nat == spec_le(buf@, 0, 8),
{
    LittleEndian::read_u64(buf)
}

/// Shifting the window of `spec_le` into a subrange reads the same number.
proof fn lemma_le_subrange(s: Seq<u8>, at: int, width: nat, from: int, to: int, off: int)
    requires
        0 <= from <= to <= s.len(),
        0 <= off,
        from + off + width <= to,
        at == from + off,
    ensures
        spec_le(s.subrange(from, to), off, width) == spec_le(s, at, width),
    decreases width,
{
    if width > 0 {
        lemma_le_subrange(s, at + 1, (width - 1) as nat, from, to, off + 1);
    }
}

/// Reading a number off what follows the first `k` bytes is reading it `k`
/// bytes further on.
pub proof fn lemma_le_skip(s: Seq<u8>, k: int, at: int, width: nat)
    requires
        0 <= k,
        0 <= at,
        k + at + width <= s.len(),
    ensures
        spec_le(s.skip(k), at, width) == spec_le(s, k + at, width),
    decreases width,
{
    if width > 0 {
        lemma_le_skip(s, k, at + 1, (width - 1) as nat);
    }
}

/// A frame's bytes together with the offset of the next byte to decode.
///
/// Every read checks the bytes that are left first and consumes nothing when
/// they do not suffice.
pub struct Reader {
    data: Vec<u8>,
    pos: usize,
}

impl Reader {
    #[verifier::type_invariant]
    spec fn in_bounds(self) -> bool {
        self.pos <= self.data.len()
    }

    /// All the bytes of the frame, read or not.
    pub closed spec fn bytes(&self) -> Seq<u8> {
        self.data@
    }

    /// The offset of the next byte to decode.
    pub closed spec fn spec_position(&self) -> nat {
        self.pos as nat
    }

    /// The bytes that are still to decode.
    pub open spec fn remaining(&self) -> Seq<u8> {
        self.bytes().skip(self.spec_position() as int)
    }

    /// A reader at the start of `data`.
    pub fn new(data: Vec<u8>) -> (reader: Reader)
        ensures
            reader.bytes() == data@,
            reader.spec_position() == 0,
    {
        Reader { data, pos: 0 }
    }

    /// The offset of the next byte to decode; it never passes the end.
    pub fn position(&self) -> (pos: usize)
        ensures
            pos == self.spec_position(),
            pos <= self.bytes().len(),
    {
        proof {
            use_type_invariant(self);
        }
        self.pos
    }

    /// The number of bytes that are still to decode.
    pub fn remaining_len(&self) -> (len: usize)
        ensures
            len == self.remaining().len(),
            self.spec_position() <= self.bytes().len(),
    {
        proof {
            use_type_invariant(self);
        }
        self.data.len() - self.pos
    }

    /// Moves to the offset `pos`, forwards or backwards.
    pub fn set_position(&mut self, pos: usize)
        requires
            pos <= old(self).bytes().len(),
        ensures
            final(self).bytes() == old(self).bytes(),
            final(self).spec_position() == pos,
    {
        self.pos = pos;
    }

    /// Reads one byte.
    pub fn read_u8(&mut self) -> (r: Result<u8, DecodeError>)
        ensures
            final(self).bytes() == old(self).bytes(),
            old(self).remaining().len() >= 1 ==> r == Ok::<u8, DecodeError>(
                old(self).remaining()[0],
            ) && final(self).spec_position() == old(self).spec_position() + 1,
            old(self).remaining().len() < 1 ==> r == Err::<u8, DecodeError>(DecodeError::Truncated)
                && final(self).spec_position() == old(self).spec_position(),
    {
        proof {
            use_type_invariant(&*self);
        }
        if self.pos < self.data.len() {
            let byte = self.data[self.pos];
            self.pos = self.pos + 1;
            Ok(byte)
        } else {
            Err(DecodeError::Truncated)
        }
    }

    /// Reads a 16-bit number, least significant byte first.
    pub fn read_u16_le(&mut self) -> (r: Result<u16, DecodeError>)
        ensures
            final(self).bytes() == old(self).bytes(),
            old(self).remaining().len() >= 2 ==> r is Ok && r->Ok_0 as nat == spec_le(
                old(self).remaining(),
                0,
                2,
            ) && final(self).spec_position() == old(self).spec_position() + 2,
            old(self).remaining().len() < 2 ==> r == Err::<u16, DecodeError>(
                DecodeError::Truncated,
            ) && final(self).spec_position() == old(self).spec_position(),
    {
        proof {
            use_type_invariant(&*self);
        }
        if self.data.len() - self.pos >= 2 {
            let window = slice_subrange(self.data.as_slice(), self.pos, self.pos + 2);
            let value = le_read_u16(window);
            proof {
                let start = self.pos as int;
                lemma_le_subrange(self.data@, start, 2, start, start + 2, 0);
                lemma_le_subrange(self.data@, start, 2, start, self.data@.len() as int, 0);
            }
            self.pos = self.pos + 2;
            Ok(value)
        } else {
            Err(DecodeError::Truncated)
        }
    }

    /// Reads a 64-bit number, least significant byte first.
    pub fn read_u64_le(&mut self) -> (r: Result<u64, DecodeError>)
        ensures
            final(self).bytes() == old(self).bytes(),
            old(self).remaining().len() >= 8 ==> r is Ok && r->Ok_0 as nat == spec_le(
                old(self).remaining(),
                0,
                8,
            ) && final(self).spec_position() == old(self).spec_position() + 8,
            old(self).remaining().len() < 8 ==> r == Err::<u64, DecodeError>(
                DecodeError::Truncated,
            ) && final(self).spec_position() == old(self).spec_position(),
    {
        proof {
            use_type_invariant(&*self);
        }
        if self.data.len() - self.pos >= 8 {
            let window = slice_subrange(self.data.as_slice(), self.pos, self.pos + 8);
            let value = le_read_u64(window);
            proof {
                let start = self.pos as int;
                lemma_le_subrange(self.data@, start, 8, start, start + 8, 0);
                lemma_le_subrange(self.data@, start, 8, start, self.data@.len() as int, 0);
            }
            self.pos = self.pos + 8;
            Ok(value)
        } else {
            Err(DecodeError::Truncated)
        }
    }

    /// Reads the next `count` bytes.
    pub fn read_bytes(&mut self, count: usize) -> (r: Result<Vec<u8>, DecodeError>)
        ensures
            final(self).bytes() == old(self).bytes(),
            old(self).remaining().len() >= count ==> r is Ok && r->Ok_0@ == old(
                self,
            ).remaining().take(count as int) && final(self).spec_position() == old(
                self,
            ).spec_position() + count,
            old(self).remaining().len() < count ==> r == Err::<Vec<u8>, DecodeError>(
                DecodeError::Truncated,
            ) && final(self).spec_position() == old(self).spec_position(),
    {
        proof {
            use_type_invariant(&*self);
        }
        if self.data.len() - self.pos < count {
            return Err(DecodeError::Truncated);
        }
        let start = self.pos;
        let mut out: Vec<u8> = Vec::new();
        let mut i: usize = 0;
        while i < count
            invariant
                start + count <= self.data.len(),
                i <= count,
                out@ == self.data@.subrange(start as int, start + i),
            decreases count - i,
        {
            out.push(self.data[start + i]);
            i = i + 1;
        }
        assert(out@ == self.data@.skip(start as int).take(count as int));
        self.pos = start + count;
        Ok(out)
    }
}

} // verus!
