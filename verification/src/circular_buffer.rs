//! A ring buffer of bytes over a borrowed slice.

use vstd::prelude::*;

verus! {

/// A ring buffer of bytes kept in a borrowed slice of `n` bytes, holding at
/// most `n - 1` of them: the bytes run from `head` up to, not including,
/// `tail`, wrapping around at the end of the slice.
pub struct CircularBuffer<'a> {
    buf: &'a mut [u8],
    head: usize,
    tail: usize,
}

/// The slot of the `i`-th byte of a ring of `n` slots whose oldest byte is
/// in slot `head`.
pub open spec fn slot(head: int, i: int, n: int) -> int {
    if head + i < n {
        head + i
    } else {
        head + i - n
    }
}

impl<'a> View for CircularBuffer<'a> {
    type V = Seq<u8>;

    closed spec fn view(&self) -> Seq<u8> {
        Seq::new(self.spec_len(), |i: int| self.buf@[slot(self.head as int, i, self.buf@.len() as int)])
    }
}

impl<'a> CircularBuffer<'a> {
    /// The number of bytes held.
    closed spec fn spec_len(&self) -> nat {
        if self.tail >= self.head {
            (self.tail - self.head) as nat
        } else {
            (self.buf@.len() + self.tail - self.head) as nat
        }
    }

    /// The length of the slice the bytes are kept in.
    pub closed spec fn slot_count(&self) -> nat {
        self.buf@.len()
    }

    /// Head and tail lie inside the slice (both zero for an empty slice).
    pub closed spec fn well_formed(&self) -> bool {
        if self.buf@.len() == 0 {
            self.head == 0 && self.tail == 0
        } else {
            self.head < self.buf@.len() && self.tail < self.buf@.len()
        }
    }

    /// An empty ring buffer over `buf`.
    pub fn new(buf: &'a mut [u8]) -> (r: CircularBuffer<'a>)
        ensures
            r.well_formed(),
            r@ == Seq::<u8>::empty(),
            r.slot_count() == old(buf)@.len(),
    {
        let r = CircularBuffer { buf, head: 0, tail: 0 };
        proof {
            assert(r@ =~= Seq::<u8>::empty());
        }
        r
    }

    /// The number of bytes held.
    pub fn len(&self) -> (r: usize)
        requires
            self.well_formed(),
        ensures
            r == self@.len(),
    {
        if self.tail >= self.head {
            self.tail - self.head
        } else {
            self.buf.len() - self.head + self.tail
        }
    }

    /// Appends `data`. Returns true if the push was successful, false when
    /// the buffer is full (it then holds `n - 1` bytes) and is left as it is.
    pub fn push(&mut self, data: u8) -> (r: bool)
        requires
            old(self).well_formed(),
            old(self).slot_count() > 0,
        ensures
            final(self).well_formed(),
            final(self).slot_count() == old(self).slot_count(),
            r == (old(self)@.len() + 1 < old(self).slot_count()),
            r ==> final(self)@ == old(self)@.push(data),
            !r ==> final(self)@ == old(self)@,
    {
        let n = self.buf.len();
        let next = if self.tail + 1 == n {
            0
        } else {
            self.tail + 1
        };
        if next == self.head {
            return false;
        }
        let ghost before = self@;
        self.buf[self.tail] = data;
        self.tail = next;
        proof {
            assert(self@ =~= before.push(data));
        }
        true
    }

    /// Removes and returns the oldest byte; `None` when there is none.
    pub fn pop(&mut self) -> (r: Option<u8>)
        requires
            old(self).well_formed(),
        ensures
            final(self).well_formed(),
            final(self).slot_count() == old(self).slot_count(),
            old(self)@.len() == 0 ==> r is None && final(self)@ == old(self)@,
            old(self)@.len() > 0 ==> r == Some(old(self)@[0]) && final(self)@ == old(self)@.drop_first(),
    {
        if self.head == self.tail {
            return None;
        }
        let n = self.buf.len();
        let x = self.buf[self.head];
        self.head = if self.head + 1 == n {
            0
        } else {
            self.head + 1
        };
        proof {
            assert(self@ =~= old(self)@.drop_first());
        }
        Some(x)
    }

    /// Returns the byte at `idx`, counted from the oldest one.
    pub fn at(&self, idx: usize) -> (r: u8)
        requires
            self.well_formed(),
            idx < self@.len(),
        ensures
            r == self@[idx as int],
    {
        let n = self.buf.len();
        let i = if idx < n - self.head {
            self.head + idx
        } else {
            idx - (n - self.head)
        };
        self.buf[i]
    }

    /// Drops every byte.
    pub fn clear(&mut self)
        requires
            old(self).well_formed(),
        ensures
            final(self).well_formed(),
            final(self).slot_count() == old(self).slot_count(),
            final(self)@ == Seq::<u8>::empty(),
    {
        self.head = 0;
        self.tail = 0;
        proof {
            assert(self@ =~= Seq::<u8>::empty());
        }
    }

    /// Appends as many bytes of `new_data` as fit and returns how many that
    /// is.
    pub fn extend_from_slice(&mut self, new_data: &[u8]) -> (r: usize)
        requires
            old(self).well_formed(),
            old(self).slot_count() > 0 || new_data@.len() == 0,
        ensures
            final(self).well_formed(),
            final(self).slot_count() == old(self).slot_count(),
            r == (if old(self)@.len() + new_data@.len() < old(self).slot_count() || new_data@.len() == 0 {
                new_data@.len() as int
            } else {
                old(self).slot_count() - 1 - old(self)@.len()
            }),
            final(self)@ == old(self)@ + new_data@.take(r as int),
    {
        let mut i: usize = 0;
        while i < new_data.len()
            invariant
                self.well_formed(),
                self.slot_count() == old(self).slot_count(),
                old(self).slot_count() > 0 || new_data@.len() == 0,
                i <= new_data@.len(),
                i == 0 || old(self)@.len() + i < old(self).slot_count(),
                old(self).slot_count() == 0 || old(self)@.len() < old(self).slot_count(),
                self@ == old(self)@ + new_data@.take(i as int),
            decreases new_data@.len() - i,
        {
            if !self.push(new_data[i]) {
                return i;
            }
            i = i + 1;
            proof {
                assert(self@ =~= old(self)@ + new_data@.take(i as int));
            }
        }
        proof {
            assert(new_data@.take(new_data@.len() as int) =~= new_data@);
        }
        new_data.len()
    }

    /// An iterator over the bytes, oldest first.
    pub fn iter(&self) -> (r: CircularBufferIter<'_, 'a>)
        ensures
            r.buf == self,
            r.offset == 0,
    {
        CircularBufferIter { buf: self, offset: 0 }
    }

    /// Drops `count` bytes, or every byte when there are not that many.
    pub fn skip(&mut self, count: usize)
        requires
            old(self).well_formed(),
        ensures
            final(self).well_formed(),
            final(self).slot_count() == old(self).slot_count(),
            final(self)@ == if count >= old(self)@.len() {
                Seq::<u8>::empty()
            } else {
                old(self)@.skip(count as int)
            },
    {
        if count >= self.len() {
            self.clear();
        } else {
            let mut k: usize = 0;
            while k < count
                invariant
                    self.well_formed(),
                    self.slot_count() == old(self).slot_count(),
                    count < old(self)@.len(),
                    k <= count,
                    self@ == old(self)@.skip(k as int),
                decreases count - k,
            {
                let _ = self.pop();
                k = k + 1;
                proof {
                    assert(self@ =~= old(self)@.skip(k as int));
                }
            }
        }
    }
}

/// Iterator over the bytes of a [CircularBuffer], oldest first.
pub struct CircularBufferIter<'a, 'b> {
    pub buf: &'a CircularBuffer<'b>,
    pub offset: usize,
}

impl<'a, 'b> CircularBufferIter<'a, 'b> {
    /// The next byte, or `None` after the last one.
    pub fn next(&mut self) -> (r: Option<u8>)
        requires
            old(self).buf.well_formed(),
        ensures
            final(self).buf == old(self).buf,
            old(self).offset < old(self).buf@.len() ==> {
                &&& r == Some(old(self).buf@[old(self).offset as int])
                &&& final(self).offset == old(self).offset + 1
            },
            old(self).offset >= old(self).buf@.len() ==> r is None && final(self).offset == old(
                self,
            ).offset,
    {
        if self.offset < self.buf.len() {
            let x = self.buf.at(self.offset);
            self.offset = self.offset + 1;
            Some(x)
        } else {
            None
        }
    }
}

} // verus!
