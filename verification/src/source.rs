//! The pull model of an input source.
//!
//! A decoder is handed an iterator and pulls one unit at a time, only as far
//! as it needs to resolve or reject a sequence. What a pull can give is a
//! unit, a failure of the platform, or the end of the stream. Contracts speak
//! of an iterator through the sequence of items it is still going to hand
//! out, which vstd's iterator specification calls `remaining`.

use crate::input::InputError;
use vstd::prelude::*;
use vstd::std_specs::iter::IteratorSpec;

verus! {

/// What decoding comes to: the value or error that is returned, and the
/// number of pulls that were made to get there.
pub struct Decoded<T> {
    pub result: Result<T, InputError>,
    pub pulls: nat,
}

/// What the pull number `i` (from 0) gives a decoder when `pending` is all
/// that the source will still hand out: the item itself, or
/// `UnexpectedEof` once the source has run dry.
pub open spec fn item_at<T>(pending: Seq<Result<T, InputError>>, i: int) -> Result<T, InputError> {
    if 0 <= i < pending.len() {
        pending[i]
    } else {
        Err(InputError::UnexpectedEof)
    }
}

/// What is left of `pending` after `n` pulls: pulls beyond the end take
/// nothing.
pub open spec fn rest_after<T>(pending: Seq<T>, n: nat) -> Seq<T> {
    if n <= pending.len() {
        pending.skip(n as int)
    } else {
        Seq::empty()
    }
}

/// Pulls after pulls add up.
pub proof fn lemma_rest_after_twice<T>(pending: Seq<T>, a: nat, b: nat)
    ensures
        rest_after(rest_after(pending, a), b) == rest_after(pending, a + b),
{
    assert(rest_after(rest_after(pending, a), b) =~= rest_after(pending, a + b));
}

/// Pulls one item for a decoder that is in the middle of a sequence, where
/// the end of the stream is an error.
pub fn next_item<T, I: Iterator<Item = Result<T, InputError>>>(iter: &mut I) -> (res: Result<
    T,
    InputError,
>)
    ensures
        (*old(iter)).obeys_prophetic_iter_laws() ==> {
            &&& (*final(iter)).obeys_prophetic_iter_laws()
            &&& res == item_at((*old(iter)).remaining(), 0)
            &&& (*final(iter)).remaining() == rest_after((*old(iter)).remaining(), 1)
        },
{
    match iter.next() {
        Some(item) => item,
        None => Err(InputError::UnexpectedEof),
    }
}

} // verus!
