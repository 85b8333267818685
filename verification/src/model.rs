//! The sink as a function on sequences of bytes.
//!
//! A sink of capacity `cap` that holds `held` takes a write of `data` whole or
//! not at all. A serializer issues its writes in order and gives up at the
//! first one that is refused; `feed` follows it through a whole run.

use vstd::prelude::*;

verus! {

/// Whether `data` can go behind `held` without the whole exceeding `cap` bytes.
pub open spec fn fits(held: Seq<u8>, cap: nat, data: Seq<u8>) -> bool {
    held.len() + data.len() <= cap
}

/// What a sink of capacity `cap` that holds `held` holds after `writes` were
/// issued to it in order, or `None` if one of them was refused. A write of one
/// byte stands for a push.
pub open spec fn feed(held: Seq<u8>, cap: nat, writes: Seq<Seq<u8>>) -> Option<Seq<u8>>
    decreases writes.len(),
{
    if writes.len() == 0 {
        Some(held)
    } else if fits(held, cap, writes.first()) {
        feed(held + writes.first(), cap, writes.drop_first())
    } else {
        None
    }
}

/// `data` cut into writes of one byte each.
pub open spec fn byte_by_byte(data: Seq<u8>) -> Seq<Seq<u8>> {
    Seq::new(data.len(), |i: int| seq![data[i]])
}

} // verus!
