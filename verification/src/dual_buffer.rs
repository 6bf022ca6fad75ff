use vstd::prelude::*;

use crate::buffer::{copied_len, slice_subrange, UnderlyingBuffer};
use crate::error::ParserError;

verus! {

/// Whether, after dropping `drain` bytes, `take` bytes can be handed out in
/// one piece: there are enough of them, and they either lie in one of the
/// two buffers or fit together into the underlying store.
pub open spec fn can_drain_and_take_spec(
    underlying_len: nat,
    new_len: nat,
    capacity: nat,
    drain: nat,
    take: nat,
) -> bool {
    let rest_underlying = if drain <= underlying_len {
        (underlying_len - drain) as nat
    } else {
        0
    };
    &&& take + drain <= underlying_len + new_len
    &&& (rest_underlying == 0 || take <= rest_underlying || take <= capacity)
}

/// The lengths (unconsumed part, whole contents) of the underlying buffer
/// after `count` bytes are taken from a view whose underlying buffer holds
/// `b` bytes, `u` of them not yet consumed, followed by `n` new bytes, with
/// room for `cap` bytes: bytes taken within the underlying buffer are only
/// skipped; bytes taken past it are either served from the new bytes (when
/// the underlying buffer holds none), or copied after it (as many new bytes
/// as fit, when the missing part fits behind it), or, after the unconsumed
/// part is moved to the front, copied behind that; a take that cannot fit
/// changes nothing.
pub open spec fn take_state(u: nat, b: nat, n: nat, cap: nat, count: nat) -> (nat, nat) {
    if u == 0 {
        (0, b)
    } else if count <= u {
        ((u - count) as nat, b)
    } else if cap < count {
        (u, b)
    } else if count - u < cap - b {
        let moved = copied_len(b, cap, n);
        ((u + moved - count) as nat, b + moved)
    } else {
        (0, count)
    }
}

/// Stores two buffers: a "base" buffer of the parser and a "new" buffer of
/// freshly received bytes. Exposes these as one sequence of bytes, copying
/// data from the "new" buffer to the base buffer as required to maintain
/// that illusion.
///
/// Call `finish` when done with it, to hand the bytes not consumed back to
/// the base buffer.
#[must_use]
pub struct DualBuffer<'a, T: UnderlyingBuffer> {
    pub buf: &'a mut T,
    pub off: usize,
    pub new_buf: &'a [u8],
    pub new_buf_offset: usize,
}

impl<'a, T: UnderlyingBuffer> DualBuffer<'a, T> {
    /// The bytes still held by the underlying buffer.
    pub open spec fn underlying_rest(&self) -> Seq<u8> {
        self.buf.contents().skip(self.off as int)
    }

    /// The bytes still held by the new buffer.
    pub open spec fn new_rest(&self) -> Seq<u8> {
        self.new_buf@.skip(self.new_buf_offset as int)
    }

    /// The bytes this view exposes, in order.
    pub open spec fn view(&self) -> Seq<u8> {
        self.underlying_rest() + self.new_rest()
    }

    /// The capacity of the underlying buffer.
    pub open spec fn capacity(&self) -> nat {
        self.buf.capacity()
    }

    /// Offsets in range, underlying buffer consistent, total length
    /// representable.
    pub open spec fn well_formed(&self) -> bool {
        &&& self.buf.well_formed()
        &&& self.off <= self.buf.contents().len()
        &&& self.new_buf_offset <= self.new_buf@.len()
        &&& self@.len() <= usize::MAX
        &&& self.new_buf@.len() <= usize::MAX
    }

    /// The underlying buffer followed by `new_buf`.
    pub fn new(buf: &'a mut T, new_buf: &'a [u8]) -> (r: Self)
        requires
            old(buf).well_formed(),
            old(buf).contents().len() + new_buf@.len() <= usize::MAX,
        ensures
            r.well_formed(),
            r@ == old(buf).contents() + new_buf@,
            *r.buf == *old(buf),
            r.off == 0,
            r.new_buf == new_buf,
            r.new_buf_offset == 0,
            *final(buf) == *final(r.buf),
    {
        let _n = new_buf.len();
        let r = Self { buf, off: 0, new_buf, new_buf_offset: 0 };
        proof {
            assert(r@ =~= old(buf).contents() + new_buf@) by {
                assert(r.buf.contents().skip(0) =~= r.buf.contents());
                assert(new_buf@.skip(0) =~= new_buf@);
            }
            assert(r.buf.contents().skip(0) =~= r.buf.contents());
            assert(new_buf@.skip(0) =~= new_buf@);
        }
        r
    }

    /// The byte at `index` of the combined view.
    pub fn at(&self, index: usize) -> (r: u8)
        requires
            self.well_formed(),
            index < self@.len(),
        ensures
            r == self@[index as int],
    {
        let blen = self.buf.len();
        if index < blen - self.off {
            self.buf.at(index + self.off)
        } else {
            self.new_buf[self.new_buf_offset + (index - (blen - self.off))]
        }
    }

    /// Return the total number of accessible bytes in this view. Note that
    /// you may not be able to take() this many bytes at once, if the total
    /// number of bytes is more than the underlying store can fit.
    pub fn len(&self) -> (r: usize)
        requires
            self.well_formed(),
        ensures
            r == self@.len(),
    {
        (self.buf.len() - self.off) + (self.new_buf.len() - self.new_buf_offset)
    }

    /// Remove `count` elements without providing a view into them.
    pub fn drain(&mut self, count: usize)
        requires
            old(self).well_formed(),
            count <= old(self)@.len(),
        ensures
            final(self).well_formed(),
            final(self)@ == old(self)@.skip(count as int),
            final(self).capacity() == old(self).capacity(),
            final(self).new_buf == old(self).new_buf,
            *final(self).buf == *old(self).buf,
            *final(final(self).buf) == *final(old(self).buf),
            final(self).underlying_rest().len() == if count <= old(self).underlying_rest().len() {
                old(self).underlying_rest().len() - count
            } else {
                0
            },
    {
        let rest = self.buf.len() - self.off;
        let underlying_bytes = if rest <= count {
            rest
        } else {
            count
        };
        let new_bytes = count - underlying_bytes;
        self.off = self.off + underlying_bytes;
        self.new_buf_offset = self.new_buf_offset + new_bytes;
        proof {
            assert(self@ =~= old(self)@.skip(count as int));
        }
    }

    /// Clears all elements: equivalent to draining `len()` bytes.
    pub fn clear(&mut self)
        requires
            old(self).well_formed(),
        ensures
            final(self).well_formed(),
            final(self)@ == Seq::<u8>::empty(),
            final(self).capacity() == old(self).capacity(),
            final(self).new_buf == old(self).new_buf,
            *final(self).buf == *old(self).buf,
            *final(final(self).buf) == *final(old(self).buf),
    {
        let n = self.len();
        self.drain(n);
        proof {
            assert(old(self)@.skip(n as int) =~= Seq::<u8>::empty());
        }
    }

    /// Returns the number of bytes which would be lost (because they cannot
    /// be copied into the underlying storage) if this buffer were finished.
    pub fn potential_lost_bytes(&self) -> (r: usize)
        requires
            self.well_formed(),
        ensures
            r == if self@.len() <= self.capacity() {
                0
            } else {
                self@.len() - self.capacity()
            },
    {
        let len = self.len();
        let cap = self.buf.max_capacity();
        if len <= cap {
            0
        } else {
            len - cap
        }
    }

    /// Whether `take` bytes could be taken in one piece after draining
    /// `drain` bytes.
    pub fn can_drain_and_take(&self, drain: usize, take: usize) -> (r: bool)
        requires
            self.well_formed(),
            drain <= self@.len(),
        ensures
            r == can_drain_and_take_spec(
                self.underlying_rest().len(),
                self.new_rest().len(),
                self.capacity(),
                drain as nat,
                take as nat,
            ),
    {
        let blen = self.buf.len();
        let cap = self.buf.max_capacity();
        proof {
            self.buf.lemma_len_bounded();
        }
        let rest = blen - self.off;
        let underlying_bytes = if rest <= drain {
            rest
        } else {
            drain
        };
        let new_bytes = drain - underlying_bytes;

        let drained_off = self.off + underlying_bytes;
        let drained_new_off = self.new_buf_offset + new_bytes;

        if take > (blen - drained_off) + (self.new_buf.len() - drained_new_off) {
            // Draining removed too many bytes, we don't have enough to take
            return false;
        }
        let rest2 = blen - drained_off;
        let underlying_bytes2 = if rest2 <= take {
            rest2
        } else {
            take
        };
        let new_bytes2 = take - underlying_bytes2;

        if underlying_bytes2 == 0 {
            // We would take entirely from the new buffer
            return true;
        }
        if new_bytes2 == 0 {
            // We would take entirely from the underlying
            return true;
        }
        if new_bytes2 > cap - (blen - drained_off) {
            // We wouldn't be able to fit all the new bytes into underlying
            return false;
        }
        true
    }

    /// Raw views of the bytes `start..end`: the part that lies in the
    /// underlying buffer and the part that lies in the new buffer.
    pub fn peek_raw(&self, start: usize, end: usize) -> (r: (&[u8], &[u8]))
        requires
            self.well_formed(),
            start <= end <= self@.len(),
        ensures
            r.0@ + r.1@ == self@.subrange(start as int, end as int),
            r.0@ == self.underlying_rest().subrange(
                if start <= self.underlying_rest().len() { start as int } else { self.underlying_rest().len() as int },
                if end <= self.underlying_rest().len() { end as int } else { self.underlying_rest().len() as int },
            ),
    {
        let blen = self.buf.len();
        let split = blen - self.off;
        let a: &[u8] = if start >= split {
            &[]
        } else {
            let e = if end >= split {
                blen
            } else {
                end + self.off
            };
            self.buf.range(start + self.off, e)
        };
        let b: &[u8] = if end <= split {
            &[]
        } else {
            let s = if start >= split {
                start - split
            } else {
                0
            };
            slice_subrange(self.new_buf, self.new_buf_offset + s, end - split + self.new_buf_offset)
        };
        proof {
            assert(a@ + b@ =~= self@.subrange(start as int, end as int));
        }
        (a, b)
    }

    /// Provide a view of the next `count` elements, moving data if
    /// necessary. If the underlying store cannot store enough elements, no
    /// data is moved and an error is returned.
    pub fn take(&mut self, count: usize) -> (r: Result<&[u8], ParserError>)
        requires
            old(self).well_formed(),
            count <= old(self)@.len(),
        ensures
            final(self).well_formed(),
            final(self).capacity() == old(self).capacity(),
            final(self).new_buf == old(self).new_buf,
            *final(final(self).buf) == *final(old(self).buf),
            match r {
                Ok(data) => {
                    &&& data@ == old(self)@.take(count as int)
                    &&& final(self)@ == old(self)@.skip(count as int)
                },
                Err(e) => {
                    &&& e == ParserError::OutOfMemory { required_size: count }
                    &&& *final(self) == *old(self)
                },
            },
            r is Err <==> (0 < old(self).underlying_rest().len() < count && old(self).capacity() < count),
            (final(self).underlying_rest().len(), final(self).buf.contents().len()) == take_state(
                old(self).underlying_rest().len(),
                old(self).buf.contents().len(),
                old(self).new_rest().len(),
                old(self).capacity(),
                count as nat,
            ),
    {
        let blen = self.buf.len();
        let cap = self.buf.max_capacity();
        proof {
            self.buf.lemma_len_bounded();
        }
        let rest = blen - self.off;
        let underlying_bytes = if rest <= count {
            rest
        } else {
            count
        };
        let new_bytes = count - underlying_bytes;

        if underlying_bytes == 0 {
            // We can directly return a slice from new
            let offset = self.new_buf_offset;
            self.new_buf_offset = self.new_buf_offset + count;
            proof {
                assert(self@ =~= old(self)@.skip(count as int));
                assert(self.new_buf@.subrange(offset as int, offset + count) =~= old(self)@.take(
                    count as int,
                ));
            }
            return Ok(slice_subrange(self.new_buf, offset, offset + count));
        }
        if new_bytes == 0 {
            // We can directly return from underlying
            let offset = self.off;
            self.off = self.off + count;
            proof {
                assert(self@ =~= old(self)@.skip(count as int));
                assert(self.buf.contents().subrange(offset as int, offset + count) =~= old(
                    self,
                )@.take(count as int));
            }
            return Ok(self.buf.range(offset, offset + count));
        }
        if cap < count {
            // Insufficient space
            return Err(ParserError::OutOfMemory { required_size: count });
        }
        if new_bytes < cap - blen {
            // Underlying has enough space to extend from new
            let tail = slice_subrange(self.new_buf, self.new_buf_offset, self.new_buf.len());
            let bytes_not_moved = self.buf.extend_from_slice(tail);
            self.new_buf_offset = self.new_buf_offset + (self.new_buf.len() - self.new_buf_offset
                - bytes_not_moved);
            let off = self.off;
            self.off = self.off + count;
            proof {
                self.buf.lemma_len_bounded();
                let moved = copied_len(blen as nat, cap as nat, tail@.len());
                assert(self.buf.contents() =~= old(self).buf.contents() + tail@.take(moved as int));
                assert(self@ =~= old(self)@.skip(count as int));
                assert(self.buf.contents().subrange(off as int, off + count) =~= old(self)@.take(
                    count as int,
                ));
            }
            return Ok(self.buf.range(off, off + count));
        }
        // Last case: we have to move the data in underlying, then extend it
        let off0 = self.off;
        self.buf.drain(off0);
        self.off = 0;
        let part = slice_subrange(
            self.new_buf,
            self.new_buf_offset,
            self.new_buf_offset + new_bytes,
        );
        let _not_moved = self.buf.extend_from_slice(part);
        self.new_buf_offset = self.new_buf_offset + new_bytes;
        self.off = count;
        proof {
            self.buf.lemma_len_bounded();
            assert(part@.take(part@.len() as int) =~= part@);
            assert(self.buf.contents() =~= old(self).underlying_rest() + part@);
            assert(self@ =~= old(self)@.skip(count as int));
            assert(self.buf.contents().subrange(0, count as int) =~= old(self)@.take(count as int));
        }
        Ok(self.buf.range(0, count))
    }

    /// Hands the bytes that were not consumed back to the underlying
    /// buffer: the unconsumed part of the underlying buffer, followed by as
    /// much of the unconsumed new bytes as fits.
    pub fn finish(self)
        requires
            self.well_formed(),
        ensures
            final(self.buf).well_formed(),
            final(self.buf).capacity() == self.capacity(),
            final(self.buf).contents() == self@.take(
                if self@.len() <= self.capacity() { self@.len() as int } else { self.capacity() as int },
            ),
    {
        let s = self;
        let ghost v = s@;
        let ghost cap = s.capacity();
        proof {
            s.buf.lemma_len_bounded();
        }
        let off = s.off;
        s.buf.drain(off);
        let tail = slice_subrange(s.new_buf, s.new_buf_offset, s.new_buf.len());
        let _lost = s.buf.extend_from_slice(tail);
        proof {
            assert(s.buf.contents() =~= v.take(
                if v.len() <= cap { v.len() as int } else { cap as int },
            ));
        }
    }
}

} // verus!
