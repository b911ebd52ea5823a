//! Newline-delimited framing of JSON-RPC messages over a byte stream.
//!
//! Each message travels as one line: its compact JSON text followed by a
//! newline byte. Decoding takes the first complete line off the front of the
//! buffer; turning the line's bytes into a message is left to the caller.
use vstd::prelude::*;

verus! {

/// The newline byte that ends every frame.
pub const NEWLINE: u8 = 10u8;

/// Whether `i` is the position of the first newline in `s`.
pub open spec fn is_first_newline(s: Seq<u8>, i: int) -> bool {
    &&& 0 <= i < s.len()
    &&& s[i] == NEWLINE
    &&& forall|j: int| 0 <= j < i ==> s[j] != NEWLINE
}

/// Whether `s` holds a newline.
pub open spec fn has_newline(s: Seq<u8>) -> bool {
    exists|i: int| 0 <= i < s.len() && s[i] == NEWLINE
}

/// The position of the first newline in `s`, if any.
pub open spec fn first_newline(s: Seq<u8>) -> Option<int> {
    if exists|i: int| is_first_newline(s, i) {
        Some(choose|i: int| is_first_newline(s, i))
    } else {
        None
    }
}

/// The first newline position is unique.
pub proof fn lemma_first_newline_unique(s: Seq<u8>, i: int)
    requires
        is_first_newline(s, i),
    ensures
        first_newline(s) == Some(i),
{
    let k = choose|k: int| is_first_newline(s, k);
    assert(is_first_newline(s, k));
    if k < i {
        assert(s[k] != NEWLINE);
    }
    if i < k {
        assert(s[i] != NEWLINE);
    }
}

/// The frame that decoding yields from buffer `s`: the bytes before the first
/// newline, unless that line is empty or the buffer holds no newline.
pub open spec fn decoded_frame(s: Seq<u8>) -> Option<Seq<u8>> {
    match first_newline(s) {
        Some(i) => if i == 0 {
            None
        } else {
            Some(s.subrange(0, i))
        },
        None => None,
    }
}

/// What stays in buffer `s` after one decoding step: everything after the
/// first newline, or all of `s` when it holds no newline.
pub open spec fn remaining_after_decode(s: Seq<u8>) -> Seq<u8> {
    match first_newline(s) {
        Some(i) => s.subrange(i + 1, s.len() as int),
        None => s,
    }
}

/// The bytes of one encoded frame.
pub open spec fn encoded_frame(json: Seq<u8>) -> Seq<u8> {
    json.push(NEWLINE)
}

/// JSON-RPC codec for newline-delimited JSON framing.
#[derive(Debug)]
pub struct JsonRpcCodec;

impl JsonRpcCodec {
    /// Creates a codec.
    pub fn new() -> (c: JsonRpcCodec) {
        JsonRpcCodec
    }

    /// Takes the first line off the front of `src`.
    ///
    /// Without a complete line nothing is taken and `None` comes back. A
    /// complete line is removed together with its newline; an empty line
    /// yields `None`, any other line yields its bytes without the newline.
    pub fn decode_frame(&mut self, src: &mut Vec<u8>) -> (r: Option<Vec<u8>>)
        ensures
            match r {
                Some(frame) => decoded_frame(old(src)@) == Some(frame@),
                None => decoded_frame(old(src)@) is None,
            },
            final(src)@ == remaining_after_decode(old(src)@),
    {
        let mut i: usize = 0;
        while i < src.len() && src[i] != NEWLINE
            invariant
                i <= src@.len(),
                forall|j: int| 0 <= j < i ==> src@[j] != NEWLINE,
            decreases src@.len() - i,
        {
            i = i + 1;
        }
        if i == src.len() {
            proof {
                if exists|k: int| is_first_newline(src@, k) {
                    let k = choose|k: int| is_first_newline(src@, k);
                    assert(src@[k] != NEWLINE);
                }
            }
            return None;
        }
        proof {
            lemma_first_newline_unique(src@, i as int);
        }
        let ghost whole = src@;
        let mut rest = src.split_off(i + 1);
        src.truncate(i);
        core::mem::swap(src, &mut rest);
        assert(rest@ =~= whole.subrange(0, i as int));
        assert(src@ =~= whole.subrange(i + 1, whole.len() as int));
        if i == 0 {
            None
        } else {
            Some(rest)
        }
    }

    /// Appends one frame holding `json` to `dst`.
    pub fn encode_frame(&mut self, json: &[u8], dst: &mut Vec<u8>)
        ensures
            final(dst)@ == old(dst)@ + encoded_frame(json@),
    {
        let mut i: usize = 0;
        while i < json.len()
            invariant
                i <= json@.len(),
                dst@ == old(dst)@ + json@.subrange(0, i as int),
            decreases json@.len() - i,
        {
            dst.push(json[i]);
            i = i + 1;
            assert(json@.subrange(0, i as int) =~= json@.subrange(0, i - 1).push(json@[i - 1]));
        }
        dst.push(NEWLINE);
        assert(json@.subrange(0, json@.len() as int) =~= json@);
        assert(dst@ =~= old(dst)@ + encoded_frame(json@));
    }
}

/// Law: a frame encoded onto a stream is decoded back whole, and decoding
/// leaves exactly the bytes that followed it. This holds for every nonempty
/// JSON text without a newline byte, which is what compact JSON always is.
pub proof fn law_encode_then_decode(json: Seq<u8>, rest: Seq<u8>)
    requires
        json.len() > 0,
        forall|j: int| 0 <= j < json.len() ==> json[j] != NEWLINE,
    ensures
        decoded_frame(encoded_frame(json) + rest) == Some(json),
        remaining_after_decode(encoded_frame(json) + rest) == rest,
{
    let s = encoded_frame(json) + rest;
    let n = json.len() as int;
    assert(is_first_newline(s, n));
    lemma_first_newline_unique(s, n);
    assert(s.subrange(0, n) =~= json);
    assert(s.subrange(n + 1, s.len() as int) =~= rest);
}

/// Law: frames encoded one after another come back in the same order.
pub proof fn law_frames_keep_order(first: Seq<u8>, second: Seq<u8>)
    requires
        first.len() > 0,
        second.len() > 0,
        forall|j: int| 0 <= j < first.len() ==> first[j] != NEWLINE,
        forall|j: int| 0 <= j < second.len() ==> second[j] != NEWLINE,
    ensures
        decoded_frame(encoded_frame(first) + encoded_frame(second)) == Some(first),
        decoded_frame(remaining_after_decode(encoded_frame(first) + encoded_frame(second)))
            == Some(second),
{
    law_encode_then_decode(first, encoded_frame(second));
    law_encode_then_decode(second, Seq::<u8>::empty());
    assert(encoded_frame(second) + Seq::<u8>::empty() =~= encoded_frame(second));
}

/// Law: a buffer without a newline is left untouched and yields nothing.
pub proof fn law_partial_frame_waits(s: Seq<u8>)
    requires
        forall|j: int| 0 <= j < s.len() ==> s[j] != NEWLINE,
    ensures
        decoded_frame(s) is None,
        remaining_after_decode(s) == s,
{
    if exists|k: int| is_first_newline(s, k) {
        let k = choose|k: int| is_first_newline(s, k);
        assert(s[k] != NEWLINE);
    }
}

} // verus!
