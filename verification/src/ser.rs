//! Serialization of a value into a [`ByteVec`].

use crate::byte_vec::ByteVec;
use crate::flavor::HVec;
use serde::Serialize;
use vstd::prelude::*;

verus! {

/// Serializes `value` into a [`ByteVec`] of capacity `B`.
///
/// The bytes are those that the serializer writes for `value` into a fresh
/// [`HVec`], in the order in which it writes them. The result is an error if
/// they are more than `B`, or if the serializer itself fails on `value`: its
/// error is handed on as it is. Which bytes a value is written as is the
/// serializer's business; what is known here of a vector that comes back is
/// that it is within its capacity.
pub fn to_vec<T, const B: usize>(value: &T) -> (r: postcard::Result<ByteVec<B>>) where
    T: Serialize + ?Sized,

    ensures
        r matches Ok(bytes) ==> bytes@.len() <= B,
{
    let r = serialize_into::<T, B>(value, HVec::default());
    proof {
        if r is Ok {
            r->Ok_0.lemma_len_within_capacity();
        }
    }
    r
}

/// `postcard::serialize_with_flavor`, with an [`HVec`] for the flavor: it has
/// `value` write itself through a serializer into `sink`, and finalizes the
/// sink if that went well. The sink is to be handed over empty. What is
/// written depends on how `T` implements `Serialize`, so nothing is claimed of
/// the result.
#[verifier::external_body]
fn serialize_into<T, const B: usize>(value: &T, sink: HVec<B>) -> (r: postcard::Result<
    ByteVec<B>,
>) where T: Serialize + ?Sized
    requires
        sink@ == Seq::<u8>::empty(),
{
    postcard::serialize_with_flavor::<T, HVec<B>, ByteVec<B>>(value, sink)
}

} // verus!
