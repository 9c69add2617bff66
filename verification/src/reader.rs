//! A forward-only cursor over the bytes of an image.

use vstd::prelude::*;
use vstd::slice::slice_subrange;

use crate::error::DecodeError;

verus! {

/// A position in a borrowed run of bytes. Reads move the position forward;
/// a read that fails leaves it where it was.
#[derive(Clone, Copy)]
pub struct Reader<'a> {
    data: &'a [u8],
    pos: usize,
}

impl<'a> Reader<'a> {
    #[verifier::type_invariant]
    spec fn in_bounds(self) -> bool {
        self.pos <= self.data@.len()
    }

    /// All the bytes the reader was made over.
    pub closed spec fn source(self) -> Seq<u8> {
        self.data@
    }

    /// How many bytes have been consumed.
    pub closed spec fn offset(self) -> int {
        self.pos as int
    }

    /// The bytes that have not been consumed yet.
    pub open spec fn remaining(self) -> Seq<u8> {
        self.source().skip(self.offset())
    }

    /// True when `self` is `before` moved forward by `count` bytes.
    pub open spec fn advanced(self, before: Self, count: int) -> bool {
        &&& 0 <= count <= before.remaining().len()
        &&& self.source() == before.source()
        &&& self.offset() == before.offset() + count
        &&& self.remaining() == before.remaining().skip(count)
    }

    /// Moving forward by `first` bytes and then by `second` is moving forward
    /// by their sum.
    pub proof fn lemma_advanced_twice(self, middle: Self, before: Self, first: int, second: int)
        requires
            middle.advanced(before, first),
            self.advanced(middle, second),
        ensures
            self.advanced(before, first + second),
    {
        assert(before.remaining().skip(first).skip(second) =~= before.remaining().skip(
            first + second,
        ));
    }

    /// A reader at the start of `data`.
    pub fn new(data: &'a [u8]) -> (reader: Self)
        ensures
            reader.source() == data@,
            reader.offset() == 0,
            reader.remaining() == data@,
    {
        let reader = Reader { data, pos: 0 };
        reader
    }

    /// The number of bytes consumed so far.
    pub fn position(&self) -> (pos: usize)
        ensures
            pos == self.offset(),
            pos <= self.source().len(),
            self.remaining().len() == self.source().len() - pos,
    {
        proof {
            use_type_invariant(self);
        }
        self.pos
    }

    /// The unread bytes, without consuming them.
    pub fn rest(&self) -> (bytes: &'a [u8])
        ensures
            bytes@ == self.remaining(),
    {
        proof {
            use_type_invariant(self);
        }
        slice_subrange(self.data, self.pos, self.data.len())
    }

    /// Consumes `count` bytes and returns them, or fails with
    /// [`DecodeError::Io`] when fewer are left.
    pub fn read_exact(&mut self, count: usize) -> (result: Result<&'a [u8], DecodeError>)
        ensures
            match result {
                Ok(bytes) => {
                    &&& bytes@ == old(self).remaining().take(count as int)
                    &&& final(self).advanced(*old(self), count as int)
                },
                Err(e) => {
                    &&& e == DecodeError::Io
                    &&& count > old(self).remaining().len()
                    &&& *final(self) == *old(self)
                },
            },
    {
        proof {
            use_type_invariant(&*self);
        }
        if count > self.data.len() - self.pos {
            return Err(DecodeError::Io);
        }
        let bytes = slice_subrange(self.data, self.pos, self.pos + count);
        proof {
            assert(self.data@.skip(self.pos + count) =~= self.remaining().skip(count as int));
        }
        self.pos = self.pos + count;
        Ok(bytes)
    }

    /// Moves past `count` bytes that are known to be there.
    pub(crate) fn advance(&mut self, count: usize)
        requires
            count <= old(self).remaining().len(),
        ensures
            final(self).advanced(*old(self), count as int),
    {
        proof {
            use_type_invariant(&*self);
            assert(self.data@.len() == self.data.len());
            assert(self.data@.skip(self.pos + count) =~= self.remaining().skip(count as int));
        }
        self.pos = self.pos + count;
    }

    /// Consumes `count` bytes without looking at them, or fails with
    /// [`DecodeError::Io`] when fewer are left.
    pub fn skip(&mut self, count: usize) -> (result: Result<(), DecodeError>)
        ensures
            match result {
                Ok(()) => final(self).advanced(*old(self), count as int),
                Err(e) => {
                    &&& e == DecodeError::Io
                    &&& count > old(self).remaining().len()
                    &&& *final(self) == *old(self)
                },
            },
    {
        match self.read_exact(count) {
            Ok(_) => Ok(()),
            Err(e) => Err(e),
        }
    }
}

} // verus!
