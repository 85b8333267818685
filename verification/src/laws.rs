//! What holds of every run of writes into a sink.

use crate::flavor::HVec;
use crate::model::{byte_by_byte, feed, fits};
use vstd::prelude::*;

verus! {

/// A run of writes is taken as a whole exactly if all its bytes together fit,
/// and then the sink holds them, in order, behind what it held before, with
/// nothing between and nothing after. How the bytes are cut into writes makes
/// no difference.
pub proof fn lemma_feed_all_or_nothing(held: Seq<u8>, cap: nat, writes: Seq<Seq<u8>>)
    requires
        held.len() <= cap,
    ensures
        fits(held, cap, writes.flatten()) ==> feed(held, cap, writes) == Some(
            held + writes.flatten(),
        ),
        !fits(held, cap, writes.flatten()) ==> feed(held, cap, writes) is None,
    decreases writes.len(),
{
    if writes.len() == 0 {
        assert(held + writes.flatten() == held);
    } else {
        let first = writes.first();
        let rest = writes.drop_first();
        assert(writes.flatten() == first + rest.flatten());
        if fits(held, cap, first) {
            lemma_feed_all_or_nothing(held + first, cap, rest);
            assert(held + first + rest.flatten() == held + writes.flatten());
        }
    }
}

/// Bytes that fit are all kept: if the bytes of a run are no more than the
/// capacity of an empty sink, every write succeeds and the sink ends up
/// holding just those bytes, as many as were written.
pub proof fn lemma_fitting_run_is_kept(cap: nat, writes: Seq<Seq<u8>>)
    requires
        writes.flatten().len() <= cap,
    ensures
        feed(Seq::empty(), cap, writes) == Some(writes.flatten()),
{
    lemma_feed_all_or_nothing(Seq::empty(), cap, writes);
    assert(Seq::<u8>::empty() + writes.flatten() == writes.flatten());
}

/// One byte too many is refused: a run whose bytes are one more than the
/// capacity of an empty sink meets a write that fails, and yields no bytes.
pub proof fn lemma_one_byte_over_is_refused(cap: nat, writes: Seq<Seq<u8>>)
    requires
        writes.flatten().len() == cap + 1,
    ensures
        feed(Seq::empty(), cap, writes) is None,
{
    lemma_feed_all_or_nothing(Seq::empty(), cap, writes);
}

/// The writes of one byte each, put together again, are the bytes.
proof fn lemma_byte_by_byte_flattens(data: Seq<u8>)
    ensures
        byte_by_byte(data).flatten() == data,
    decreases data.len(),
{
    if data.len() == 0 {
        assert(byte_by_byte(data) == Seq::<Seq<u8>>::empty());
    } else {
        let init = data.drop_last();
        lemma_byte_by_byte_flattens(init);
        assert(byte_by_byte(data) == byte_by_byte(init).push(seq![data.last()]));
        byte_by_byte(init).lemma_flatten_push(seq![data.last()]);
        assert(init + seq![data.last()] == data);
    }
}

/// Pushing bytes one at a time comes to the same as extending by all of them
/// at once: a sink ends up holding the same bytes either way, and where the
/// bytes do not fit, both ways fail.
pub proof fn lemma_pushes_equal_extend(held: Seq<u8>, cap: nat, data: Seq<u8>)
    requires
        held.len() <= cap,
    ensures
        feed(held, cap, byte_by_byte(data)) == feed(held, cap, seq![data]),
        fits(held, cap, data) ==> feed(held, cap, byte_by_byte(data)) == Some(held + data),
{
    lemma_byte_by_byte_flattens(data);
    seq![data].lemma_flatten_one_element();
    lemma_feed_all_or_nothing(held, cap, byte_by_byte(data));
    lemma_feed_all_or_nothing(held, cap, seq![data]);
}

/// A patch stays: when the byte at offset `at` has been overwritten with
/// `byte`, whatever is written afterwards leaves `byte` at that offset, and
/// the other bytes are what they would have been without the patch.
pub proof fn lemma_patch_is_kept(
    held: Seq<u8>,
    cap: nat,
    at: int,
    byte: u8,
    writes: Seq<Seq<u8>>,
)
    requires
        held.len() <= cap,
        0 <= at < held.len(),
    ensures
        feed(held, cap, writes) is None ==> feed(held.update(at, byte), cap, writes) is None,
        feed(held, cap, writes) matches Some(bytes) ==> {
            &&& feed(held.update(at, byte), cap, writes) == Some(bytes.update(at, byte))
            &&& bytes.update(at, byte)[at] == byte
        },
{
    lemma_feed_all_or_nothing(held, cap, writes);
    lemma_feed_all_or_nothing(held.update(at, byte), cap, writes);
    assert(held.update(at, byte) + writes.flatten() == (held + writes.flatten()).update(
        at,
        byte,
    ));
}

/// Two sinks of one capacity that hold the same bytes and are given the same
/// writes end up holding the same bytes, or both refuse.
pub proof fn lemma_same_writes_same_bytes<const B: usize>(
    one: HVec<B>,
    other: HVec<B>,
    writes: Seq<Seq<u8>>,
)
    requires
        one@ == other@,
    ensures
        feed(one@, B as nat, writes) == feed(other@, B as nat, writes),
{
}

} // verus!
