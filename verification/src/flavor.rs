//! The flavor that collects serialized bytes in a [`ByteVec`].

use crate::byte_vec::ByteVec;
use crate::error::buffer_full;
use crate::model::fits;
use core::ops::{Index, IndexMut};
use postcard::ser_flavors::Flavor;
use vstd::prelude::*;

verus! {

/// A flavor that keeps what is written to it in a [`ByteVec`] of capacity `B`,
/// and hands that vector out when the serializer is done.
///
/// Its view is the sequence of bytes written so far. A write is taken whole or
/// refused whole, so the view only ever grows by exactly the bytes of a write
/// that succeeded; a byte already written can be patched in place.
pub struct HVec<const B: usize> {
    vec: ByteVec<B>,
}

impl<const B: usize> View for HVec<B> {
    type V = Seq<u8>;

    closed spec fn view(&self) -> Seq<u8> {
        self.vec@
    }
}

impl<const B: usize> HVec<B> {
    /// A sink never holds more bytes than its capacity.
    pub proof fn lemma_len_within_capacity(&self)
        ensures
            self@.len() <= B,
    {
        self.vec.lemma_len_within_capacity();
    }
}

impl<const B: usize> Default for HVec<B> {
    /// A sink that holds nothing yet.
    fn default() -> (sink: Self)
        ensures
            sink@ == Seq::<u8>::empty(),
    {
        HVec { vec: ByteVec::new() }
    }
}

impl<const B: usize> Flavor for HVec<B> {
    type Output = ByteVec<B>;

    /// Appends all of `data` if it fits in the room left, and nothing of it if
    /// it does not: then the sink is as it was and the error is returned.
    fn try_extend(&mut self, data: &[u8]) -> (r: postcard::Result<()>)
        ensures
            r is Ok <==> fits(old(self)@, B as nat, data@),
            r is Ok ==> final(self)@ == old(self)@ + data@,
            r is Err ==> final(self)@ == old(self)@,
            final(self)@.len() <= B,
    {
        proof {
            self.vec.lemma_len_within_capacity();
        }
        match self.vec.extend_from_slice(data) {
            Ok(()) => Ok(()),
            Err(()) => Err(buffer_full()),
        }
    }

    /// Appends the one byte `data`, as `try_extend` does for a slice that holds
    /// just that byte.
    fn try_push(&mut self, data: u8) -> (r: postcard::Result<()>)
        ensures
            r is Ok <==> fits(old(self)@, B as nat, seq![data]),
            r is Ok ==> final(self)@ == old(self)@ + seq![data],
            r is Err ==> final(self)@ == old(self)@,
            final(self)@.len() <= B,
    {
        proof {
            self.vec.lemma_len_within_capacity();
        }
        match self.vec.push(data) {
            Ok(()) => Ok(()),
            Err(_) => Err(buffer_full()),
        }
    }

    /// Gives up the sink for the vector in it, which holds the bytes written
    /// and no others. This never fails.
    fn finalize(self) -> (r: postcard::Result<ByteVec<B>>)
        ensures
            r is Ok,
            r->Ok_0@ == self@,
            r->Ok_0@.len() <= B,
    {
        proof {
            self.vec.lemma_len_within_capacity();
        }
        Ok(self.vec)
    }
}

impl<const B: usize> vstd::std_specs::core::IndexSpecImpl<usize> for HVec<B> {
    open spec fn index_req(&self, index: &usize) -> bool {
        *index < self@.len()
    }
}

impl<const B: usize> Index<usize> for HVec<B> {
    type Output = u8;

    /// The byte written at offset `idx`, which must be less than the number of
    /// bytes written.
    fn index(&self, idx: usize) -> (byte: &u8)
        ensures
            *byte == self@[idx as int],
    {
        &self.vec[idx]
    }
}

impl<const B: usize> IndexMut<usize> for HVec<B> {
    /// The byte written at offset `idx`, which must be less than the number of
    /// bytes written, to be overwritten in place. What is stored there when the
    /// borrow ends is the byte at `idx` from then on; every other byte and the
    /// length stay as they were.
    fn index_mut(&mut self, idx: usize) -> (byte: &mut u8)
        requires
            idx < old(self)@.len(),
        ensures
            *byte == old(self)@[idx as int],
            final(self)@ == old(self)@.update(idx as int, *final(byte)),
    {
        self.vec.index_mut(idx)
    }
}

} // verus!
