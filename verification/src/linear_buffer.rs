//! Buffers that bytes are written into from the start and read back as one
//! slice.

use vstd::prelude::*;

use crate::error::MemWriterError;

verus! {

/// A buffer that bytes are written into and read back from as one slice:
/// growable like a `Vec`, or of a fixed size like an array.
pub trait LinearBuffer {
    /// The bytes the buffer holds.
    spec fn bytes(&self) -> Seq<u8>;

    /// The bytes held after writing `data` over `before`, and whether the
    /// write succeeds.
    spec fn spec_set(before: Seq<u8>, data: Seq<u8>) -> (Seq<u8>, bool);

    /// The bytes held after clearing `before`.
    spec fn spec_clear(before: Seq<u8>) -> Seq<u8>;

    /// Whether a view of `size` bytes can be had.
    spec fn can_get_ref(&self, size: usize) -> bool;

    /// The view of `size` bytes of `bytes`.
    spec fn spec_get_ref(bytes: Seq<u8>, size: usize) -> Seq<u8>;

    /// Writes `data` into the buffer.
    fn set<E>(&mut self, data: &[u8]) -> (r: Result<(), MemWriterError<E>>)
        ensures
            (final(self).bytes(), r is Ok) == Self::spec_set(old(self).bytes(), data@),
            r matches Err(e) ==> e is NotEnoughMem,
    ;

    /// Drops what the buffer holds, where it can.
    fn clear(&mut self)
        ensures
            final(self).bytes() == Self::spec_clear(old(self).bytes()),
    ;

    /// A view of the bytes: the first `size` of them for a fixed buffer.
    fn get_ref(&self, size: usize) -> (r: &[u8])
        requires
            self.can_get_ref(size),
        ensures
            r@ == Self::spec_get_ref(self.bytes(), size),
    ;
}

impl LinearBuffer for Vec<u8> {
    open spec fn bytes(&self) -> Seq<u8> {
        self@
    }

    /// Appending never fails.
    open spec fn spec_set(before: Seq<u8>, data: Seq<u8>) -> (Seq<u8>, bool) {
        (before + data, true)
    }

    open spec fn spec_clear(before: Seq<u8>) -> Seq<u8> {
        Seq::empty()
    }

    open spec fn can_get_ref(&self, size: usize) -> bool {
        true
    }

    /// All bytes, whatever `size` is.
    open spec fn spec_get_ref(bytes: Seq<u8>, size: usize) -> Seq<u8> {
        bytes
    }

    /// Appends `data`.
    fn set<E>(&mut self, data: &[u8]) -> (r: Result<(), MemWriterError<E>>) {
        let mut i: usize = 0;
        while i < data.len()
            invariant
                i <= data@.len(),
                self@ == old(self)@ + data@.take(i as int),
            decreases data@.len() - i,
        {
            self.push(data[i]);
            i = i + 1;
            proof {
                assert(self@ =~= old(self)@ + data@.take(i as int));
            }
        }
        proof {
            assert(data@.take(data@.len() as int) =~= data@);
        }
        Ok(())
    }

    /// Drops every byte.
    fn clear(&mut self) {
        self.truncate(0);
    }

    fn get_ref(&self, size: usize) -> (r: &[u8]) {
        self.as_slice()
    }
}

/// A linear buffer over a borrowed slice of fixed length.
pub struct ArrayBuffer<'a> {
    underlying: &'a mut [u8],
}

impl<'a> ArrayBuffer<'a> {
    /// A buffer over `buf`.
    pub fn new(buf: &'a mut [u8]) -> (r: ArrayBuffer<'a>)
        ensures
            r.bytes() == old(buf)@,
    {
        ArrayBuffer { underlying: buf }
    }
}

impl<'a> LinearBuffer for ArrayBuffer<'a> {
    closed spec fn bytes(&self) -> Seq<u8> {
        self.underlying@
    }

    /// `data` is written from the start of the slice. When it is longer than
    /// the slice, the slice is filled with its first bytes and the write
    /// fails.
    open spec fn spec_set(before: Seq<u8>, data: Seq<u8>) -> (Seq<u8>, bool) {
        if data.len() <= before.len() {
            (data + before.skip(data.len() as int), true)
        } else {
            (data.take(before.len() as int), false)
        }
    }

    /// The slice keeps its bytes.
    open spec fn spec_clear(before: Seq<u8>) -> Seq<u8> {
        before
    }

    open spec fn can_get_ref(&self, size: usize) -> bool {
        size <= self.bytes().len()
    }

    /// The first `size` bytes of the slice.
    open spec fn spec_get_ref(bytes: Seq<u8>, size: usize) -> Seq<u8> {
        bytes.take(size as int)
    }

    fn set<E>(&mut self, data: &[u8]) -> (r: Result<(), MemWriterError<E>>) {
        let n = self.underlying.len();
        let mut i: usize = 0;
        while i < data.len()
            invariant
                n == self.underlying@.len(),
                n == old(self).underlying@.len(),
                i <= data@.len(),
                i <= n,
                self.underlying@ == data@.take(i as int) + old(self).underlying@.skip(i as int),
            decreases data@.len() - i,
        {
            if i >= n {
                proof {
                    assert(old(self).underlying@.skip(i as int) =~= Seq::<u8>::empty());
                    assert(self.underlying@ =~= data@.take(n as int));
                }
                return Err(MemWriterError::NotEnoughMem);
            }
            self.underlying[i] = data[i];
            i = i + 1;
            proof {
                assert(self.underlying@ =~= data@.take(i as int) + old(self).underlying@.skip(i as int));
            }
        }
        proof {
            assert(data@.take(data@.len() as int) =~= data@);
        }
        Ok(())
    }

    fn clear(&mut self) {
    }

    fn get_ref(&self, size: usize) -> (r: &[u8]) {
        crate::buffer::slice_subrange(self.underlying, 0, size)
    }
}

} // verus!
