//! A vector of bytes with a capacity fixed at compile time, stored inline.

use core::ops::{Index, IndexMut};
use vstd::prelude::*;

verus! {

/// Up to `N` bytes, kept in an array that is part of the value itself.
///
/// The vector only grows: bytes are appended at the end, and a byte that is
/// already there can be read or overwritten in place. Its view is the sequence
/// of the bytes appended so far, which is never longer than `N`.
#[derive(Debug)]
pub struct ByteVec<const N: usize> {
    len: usize,
    buffer: [u8; N],
}

impl<const N: usize> View for ByteVec<N> {
    type V = Seq<u8>;

    closed spec fn view(&self) -> Seq<u8> {
        self.buffer@.take(self.filled())
    }
}

/// The byte at `idx`, to be written through.
fn byte_mut<const N: usize>(buffer: &mut [u8; N], idx: usize) -> (byte: &mut u8)
    requires
        idx < N,
    ensures
        *byte == old(buffer)@[idx as int],
        final(buffer)@ == old(buffer)@.update(idx as int, *final(byte)),
    no_unwind
{
    &mut buffer[idx]
}

impl<const N: usize> ByteVec<N> {
    #[verifier::type_invariant]
    spec fn len_within_capacity(&self) -> bool {
        self.len <= N
    }

    /// How many bytes of the buffer are in use: `len`, which the invariant
    /// keeps within the buffer.
    spec fn filled(&self) -> int {
        if self.len <= N {
            self.len as int
        } else {
            N as int
        }
    }

    /// A vector never holds more bytes than its capacity.
    pub proof fn lemma_len_within_capacity(&self)
        ensures
            self@.len() <= N,
    {
    }

    /// An empty vector.
    pub fn new() -> (v: Self)
        ensures
            v@ == Seq::<u8>::empty(),
    {
        ByteVec { len: 0, buffer: [0u8; N] }
    }

    /// The number of bytes that the vector can hold.
    pub fn capacity(&self) -> (n: usize)
        ensures
            n == N,
    {
        N
    }

    /// The number of bytes in the vector.
    pub fn len(&self) -> (n: usize)
        ensures
            n == self@.len(),
            n <= N,
    {
        proof {
            use_type_invariant(self);
        }
        self.len
    }

    /// The bytes of the vector, in the order in which they were appended.
    pub fn as_slice(&self) -> (bytes: &[u8])
        ensures
            bytes@ == self@,
    {
        proof {
            use_type_invariant(self);
        }
        vstd::slice::slice_subrange(self.buffer.as_slice(), 0, self.len)
    }

    /// Appends `item`, or hands it back if the vector is full.
    pub fn push(&mut self, item: u8) -> (r: Result<(), u8>)
        ensures
            old(self)@.len() < N ==> r is Ok && final(self)@ == old(self)@.push(item),
            old(self)@.len() >= N ==> r == Err::<(), u8>(item) && final(self)@ == old(self)@,
    {
        proof {
            use_type_invariant(&*self);
        }
        if self.len < N {
            self.buffer[self.len] = item;
            self.len = self.len + 1;
            Ok(())
        } else {
            Err(item)
        }
    }

    /// Appends all of `other`, or nothing if that is more than the room left.
    pub fn extend_from_slice(&mut self, other: &[u8]) -> (r: Result<(), ()>)
        ensures
            r is Ok <==> old(self)@.len() + other@.len() <= N,
            r is Ok ==> final(self)@ == old(self)@ + other@,
            r is Err ==> final(self)@ == old(self)@,
    {
        proof {
            use_type_invariant(&*self);
        }
        let n: usize = other.len();
        if n > N - self.len {
            return Err(());
        }
        let mut i: usize = 0;
        while i < n
            invariant
                n == other@.len(),
                i <= n,
                self.len == old(self).len + i,
                old(self).len + n <= N,
                self.buffer@.take(self.len as int) == old(self)@ + other@.take(i as int),
            decreases n - i,
        {
            let ghost held = self.buffer@.take(self.len as int);
            self.buffer[self.len] = other[i];
            self.len = self.len + 1;
            i = i + 1;
            assert(self.buffer@.take(self.len as int) == held.push(other@[i - 1]));
            assert(other@.take(i as int) == other@.take(i - 1).push(other@[i - 1]));
        }
        assert(other@.take(n as int) == other@);
        Ok(())
    }
}

impl<const N: usize> Default for ByteVec<N> {
    fn default() -> (v: Self)
        ensures
            v@ == Seq::<u8>::empty(),
    {
        ByteVec::new()
    }
}

impl<const N: usize> vstd::std_specs::core::IndexSpecImpl<usize> for ByteVec<N> {
    open spec fn index_req(&self, index: &usize) -> bool {
        *index < self@.len()
    }
}

impl<const N: usize> Index<usize> for ByteVec<N> {
    type Output = u8;

    /// The byte at `idx`, which must be one of those appended so far.
    fn index(&self, idx: usize) -> (byte: &u8)
        ensures
            *byte == self@[idx as int],
    {
        &self.as_slice()[idx]
    }
}

impl<const N: usize> IndexMut<usize> for ByteVec<N> {
    /// The byte at `idx`, which must be one of those appended so far, to be
    /// overwritten in place. No other byte changes, nor the length.
    fn index_mut(&mut self, idx: usize) -> (byte: &mut u8)
        requires
            idx < old(self)@.len(),
        ensures
            *byte == old(self)@[idx as int],
            final(self)@ == old(self)@.update(idx as int, *final(byte)),
    {
        proof {
            use_type_invariant(&*self);
        }
        if idx >= self.len {
            // Only a caller that was not verified can get here: it is stopped.
            vstd::pervasive::unreached::<()>();
        }
        byte_mut(&mut self.buffer, idx)
    }
}

} // verus!
