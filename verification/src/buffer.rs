use vstd::prelude::*;

verus! {

/// Number of bytes that `extend_from_slice` copies into a buffer holding `len`
/// bytes out of a possible `cap`, when handed `n` new bytes.
pub open spec fn copied_len(len: nat, cap: nat, n: nat) -> nat {
    if n <= cap - len {
        n
    } else {
        (cap - len) as nat
    }
}

/// Index of the first occurrence of `value` in `s`, if any.
pub open spec fn first_index_of(s: Seq<u8>, value: u8) -> Option<int> {
    if exists|i: int| 0 <= i < s.len() && s[i] == value {
        Some(choose|i: int| 0 <= i < s.len() && s[i] == value && forall|j: int| 0 <= j < i ==> s[j] != value)
    } else {
        None
    }
}

/// The buffer that a [crate::Parser] keeps between calls. Implementations
/// exist for `Vec<u8>`, for an owned array ([FixedBuffer]) and for a
/// borrowed slice ([FixedLinearBuffer]); a user may implement it for a
/// buffer of their own.
pub trait UnderlyingBuffer {
    /// The bytes currently stored, in order.
    spec fn contents(&self) -> Seq<u8>;

    /// The most bytes the buffer can hold.
    spec fn capacity(&self) -> nat;

    /// Internal consistency of the buffer.
    spec fn well_formed(&self) -> bool;

    /// A well-formed buffer never holds more than its capacity.
    proof fn lemma_len_bounded(&self)
        requires
            self.well_formed(),
        ensures
            self.contents().len() <= self.capacity(),
            self.capacity() <= usize::MAX,
    ;

    /// Removes all elements from the buffer.
    fn clear(&mut self)
        requires
            old(self).well_formed(),
        ensures
            final(self).well_formed(),
            final(self).contents() == Seq::<u8>::empty(),
            final(self).capacity() == old(self).capacity(),
    ;

    /// Returns the number of elements currently stored in the buffer.
    fn len(&self) -> (r: usize)
        requires
            self.well_formed(),
        ensures
            r == self.contents().len(),
    ;

    /// Returns the maximum capacity of this buffer.
    fn max_capacity(&self) -> (r: usize)
        requires
            self.well_formed(),
        ensures
            r == self.capacity(),
    ;

    /// Appends as much of `other` as fits and returns the number of bytes
    /// that were not copied.
    fn extend_from_slice(&mut self, other: &[u8]) -> (r: usize)
        requires
            old(self).well_formed(),
        ensures
            final(self).well_formed(),
            final(self).capacity() == old(self).capacity(),
            final(self).contents() == old(self).contents() + other@.take(
                copied_len(old(self).contents().len(), old(self).capacity(), other@.len()) as int,
            ),
            r == other@.len() - copied_len(
                old(self).contents().len(),
                old(self).capacity(),
                other@.len(),
            ),
    ;

    /// Removes the first `count` elements from the buffer (all of them if
    /// there are fewer). Cannot fail.
    fn drain(&mut self, count: usize)
        requires
            old(self).well_formed(),
        ensures
            final(self).well_formed(),
            final(self).capacity() == old(self).capacity(),
            final(self).contents() == if count <= old(self).contents().len() {
                old(self).contents().skip(count as int)
            } else {
                Seq::<u8>::empty()
            },
    ;

    /// The byte at `index`.
    fn at(&self, index: usize) -> (r: u8)
        requires
            self.well_formed(),
            index < self.contents().len(),
        ensures
            r == self.contents()[index as int],
    ;

    /// A view of the stored bytes `start..end`.
    fn range(&self, start: usize, end: usize) -> (r: &[u8])
        requires
            self.well_formed(),
            start <= end <= self.contents().len(),
        ensures
            r@ == self.contents().subrange(start as int, end as int),
    ;

    /// Locates the given value within the buffer, returning the index of
    /// its first occurrence.
    fn find(&self, value: u8) -> (r: Option<usize>)
        requires
            self.well_formed(),
        ensures
            r matches Some(i) ==> first_index_of(self.contents(), value) == Some(i as int),
            r is None ==> first_index_of(self.contents(), value) is None,
    {
        let n = self.len();
        let mut i: usize = 0;
        while i < n
            invariant
                self.well_formed(),
                n == self.contents().len(),
                i <= n,
                forall|j: int| 0 <= j < i ==> self.contents()[j] != value,
            decreases n - i,
        {
            if self.at(i) == value {
                proof {
                    lemma_first_index_of(self.contents(), value, i as int);
                }
                return Some(i);
            }
            i = i + 1;
        }
        None
    }

    /// Returns whether the buffer is empty.
    fn is_empty(&self) -> (r: bool)
        requires
            self.well_formed(),
        ensures
            r == (self.contents().len() == 0),
    {
        self.len() == 0
    }
}

/// If `s[i] == value` and no earlier byte is `value`, then `i` is the first
/// index of `value` in `s`.
pub proof fn lemma_first_index_of(s: Seq<u8>, value: u8, i: int)
    requires
        0 <= i < s.len(),
        s[i] == value,
        forall|j: int| 0 <= j < i ==> s[j] != value,
    ensures
        first_index_of(s, value) == Some(i),
{
    let k = choose|k: int| 0 <= k < s.len() && s[k] == value && forall|j: int| 0 <= j < k ==> s[j] != value;
    assert(0 <= k < s.len() && s[k] == value && forall|j: int| 0 <= j < k ==> s[j] != value);
    if k < i {
        assert(s[k] != value);
    } else if i < k {
        assert(s[i] != value);
    }
}

impl UnderlyingBuffer for Vec<u8> {
    open spec fn contents(&self) -> Seq<u8> {
        self@
    }

    open spec fn capacity(&self) -> nat {
        usize::MAX as nat
    }

    open spec fn well_formed(&self) -> bool {
        true
    }

    proof fn lemma_len_bounded(&self) {
        assert(vstd::std_specs::vec::spec_vec_len(self) == self@.len());
    }

    fn clear(&mut self) {
        Vec::clear(self);
    }

    fn len(&self) -> (r: usize) {
        Vec::len(self)
    }

    fn max_capacity(&self) -> (r: usize) {
        usize::MAX
    }

    fn extend_from_slice(&mut self, other: &[u8]) -> (r: usize) {
        let ghost before = self@;
        Vec::extend_from_slice(self, other);
        proof {
            assert(vstd::std_specs::vec::spec_vec_len(self) == self@.len());
            assert forall|i: int| 0 <= i < other@.len() implies self@[before.len() + i] == other@[i] by {
                assert(cloned::<u8>(other@[i], self@[before.len() + i]));
            }
            assert(self@ =~= before + other@.take(other@.len() as int));
        }
        0
    }

    fn drain(&mut self, count: usize) {
        let n = Vec::len(self);
        let at = if count <= n {
            count
        } else {
            n
        };
        let rest = self.split_off(at);
        *self = rest;
        proof {
            if count > n {
                assert(self@ =~= Seq::<u8>::empty());
            }
        }
    }

    fn at(&self, index: usize) -> (r: u8) {
        self[index]
    }

    fn range(&self, start: usize, end: usize) -> (r: &[u8]) {
        let s = self.as_slice();
        slice_subrange(s, start, end)
    }
}

/// The bytes `start..end` of a slice.
pub fn slice_subrange(s: &[u8], start: usize, end: usize) -> (r: &[u8])
    requires
        start <= end <= s@.len(),
    ensures
        r@ == s@.subrange(start as int, end as int),
{
    &s[start..end]
}

/// Holds a mutable reference to a fixed byte array; the first `len` bytes
/// of it are the stored contents.
pub struct FixedLinearBuffer<'a> {
    buffer: &'a mut [u8],
    len: usize,
}

impl<'a> FixedLinearBuffer<'a> {
    /// An empty buffer whose capacity is the length of `buf`.
    pub fn new(buf: &'a mut [u8]) -> (r: Self)
        ensures
            r.well_formed(),
            r.contents() == Seq::<u8>::empty(),
            r.capacity() == old(buf)@.len(),
    {
        let _n = buf.len();
        Self { buffer: buf, len: 0 }
    }
}

impl<'a> UnderlyingBuffer for FixedLinearBuffer<'a> {
    closed spec fn contents(&self) -> Seq<u8> {
        self.buffer@.take(self.len as int)
    }

    closed spec fn capacity(&self) -> nat {
        self.buffer@.len()
    }

    closed spec fn well_formed(&self) -> bool {
        self.len <= self.buffer@.len() && self.buffer@.len() <= usize::MAX
    }

    proof fn lemma_len_bounded(&self) {
    }

    fn clear(&mut self) {
        self.len = 0;
    }

    fn len(&self) -> (r: usize) {
        self.len
    }

    fn max_capacity(&self) -> (r: usize) {
        self.buffer.len()
    }

    fn extend_from_slice(&mut self, other: &[u8]) -> (r: usize) {
        let available_space = self.buffer.len() - self.len;
        let to_copy = if other.len() <= available_space {
            other.len()
        } else {
            available_space
        };
        let start = self.len;
        let mut i: usize = 0;
        while i < to_copy
            invariant
                start == old(self).len,
                start + to_copy <= self.buffer@.len(),
                self.buffer@.len() <= usize::MAX,
                self.buffer@.len() == old(self).buffer@.len(),
                i <= to_copy,
                to_copy <= other@.len(),
                forall|j: int| 0 <= j < start ==> self.buffer@[j] == old(self).buffer@[j],
                forall|j: int| 0 <= j < i ==> self.buffer@[start + j] == other@[j],
            decreases to_copy - i,
        {
            self.buffer[start + i] = other[i];
            i = i + 1;
        }
        self.len = start + to_copy;
        proof {
            assert(self.buffer@.take(self.len as int) =~= old(self).buffer@.take(start as int)
                + other@.take(to_copy as int));
        }
        other.len() - to_copy
    }

    fn drain(&mut self, count: usize) {
        if count >= self.len {
            self.len = 0;
            proof {
                assert(self.buffer@.take(0) =~= Seq::<u8>::empty());
                if count == old(self).len {
                    assert(old(self).buffer@.take(old(self).len as int).skip(count as int)
                        =~= Seq::<u8>::empty());
                }
            }
            return;
        }
        let remaining = self.len - count;
        let mut i: usize = 0;
        while i < remaining
            invariant
                count < old(self).len,
                remaining == old(self).len - count,
                old(self).len <= old(self).buffer@.len(),
                self.buffer@.len() == old(self).buffer@.len(),
                i <= remaining,
                forall|j: int| 0 <= j < i ==> self.buffer@[j] == old(self).buffer@[count + j],
                forall|j: int| i <= j < self.buffer@.len() ==> self.buffer@[j] == old(self).buffer@[j],
            decreases remaining - i,
        {
            let x = self.buffer[count + i];
            self.buffer[i] = x;
            i = i + 1;
        }
        self.len = remaining;
        proof {
            assert(self.buffer@.take(remaining as int) =~= old(self).buffer@.take(
                old(self).len as int,
            ).skip(count as int));
        }
    }

    fn at(&self, index: usize) -> (r: u8) {
        self.buffer[index]
    }

    fn range(&self, start: usize, end: usize) -> (r: &[u8]) {
        slice_subrange(self.buffer, start, end)
    }
}

/// An owned, fixed-size linear buffer with a capacity known at compile time.
pub struct FixedBuffer<const N: usize> {
    buffer: [u8; N],
    len: usize,
}

impl<const N: usize> FixedBuffer<N> {
    /// Creates a new, empty `FixedBuffer`.
    pub fn new() -> (r: Self)
        ensures
            r.well_formed(),
            r.contents() == Seq::<u8>::empty(),
            r.capacity() == N,
    {
        let buffer: [u8; N] = vstd::array::array_fill_for_copy_types::<u8, N>(0u8);
        let _n = buffer.as_slice().len();
        Self { buffer, len: 0 }
    }
}

impl<const N: usize> UnderlyingBuffer for FixedBuffer<N> {
    closed spec fn contents(&self) -> Seq<u8> {
        self.buffer@.take(self.len as int)
    }

    closed spec fn capacity(&self) -> nat {
        N as nat
    }

    closed spec fn well_formed(&self) -> bool {
        self.len <= N && self.buffer@.len() == N && N <= usize::MAX
    }

    proof fn lemma_len_bounded(&self) {
    }

    fn clear(&mut self) {
        self.len = 0;
    }

    fn len(&self) -> (r: usize) {
        self.len
    }

    fn max_capacity(&self) -> (r: usize) {
        N
    }

    fn extend_from_slice(&mut self, other: &[u8]) -> (r: usize) {
        let available_space = N - self.len;
        let to_copy = if other.len() <= available_space {
            other.len()
        } else {
            available_space
        };
        let start = self.len;
        let mut i: usize = 0;
        while i < to_copy
            invariant
                start == old(self).len,
                start + to_copy <= N,
                self.buffer@.len() == N,
                i <= to_copy,
                to_copy <= other@.len(),
                forall|j: int| 0 <= j < start ==> self.buffer@[j] == old(self).buffer@[j],
                forall|j: int| 0 <= j < i ==> self.buffer@[start + j] == other@[j],
            decreases to_copy - i,
        {
            self.buffer[start + i] = other[i];
            i = i + 1;
        }
        self.len = start + to_copy;
        proof {
            assert(self.buffer@.take(self.len as int) =~= old(self).buffer@.take(start as int)
                + other@.take(to_copy as int));
        }
        other.len() - to_copy
    }

    fn drain(&mut self, count: usize) {
        if count >= self.len {
            self.len = 0;
            proof {
                assert(self.buffer@.take(0) =~= Seq::<u8>::empty());
                if count == old(self).len {
                    assert(old(self).buffer@.take(old(self).len as int).skip(count as int)
                        =~= Seq::<u8>::empty());
                }
            }
            return;
        }
        let remaining = self.len - count;
        let mut i: usize = 0;
        while i < remaining
            invariant
                count < old(self).len,
                remaining == old(self).len - count,
                old(self).len <= N,
                self.buffer@.len() == N,
                old(self).buffer@.len() == N,
                i <= remaining,
                forall|j: int| 0 <= j < i ==> self.buffer@[j] == old(self).buffer@[count + j],
                forall|j: int| i <= j < N ==> self.buffer@[j] == old(self).buffer@[j],
            decreases remaining - i,
        {
            let x = self.buffer[count + i];
            self.buffer[i] = x;
            i = i + 1;
        }
        self.len = remaining;
        proof {
            assert(self.buffer@.take(remaining as int) =~= old(self).buffer@.take(
                old(self).len as int,
            ).skip(count as int));
        }
    }

    fn at(&self, index: usize) -> (r: u8) {
        self.buffer[index]
    }

    fn range(&self, start: usize, end: usize) -> (r: &[u8]) {
        slice_subrange(self.buffer.as_slice(), start, end)
    }
}

} // verus!
