//! Text on its way to the runtime and back: null-terminated bytes in UTF-8.

use vstd::prelude::*;
use vstd::slice::{slice_subrange, slice_to_vec};
use vstd::utf8::*;

verus! {

/// The bytes that the runtime is given for `text`: its UTF-8 encoding and the
/// terminating zero.
pub open spec fn c_string(text: Seq<char>) -> Seq<u8> {
    encode_utf8(text).push(0u8)
}

/// Whether the runtime reads all of `bytes` as one string: the last byte is the
/// only zero.
pub open spec fn is_c_string(bytes: Seq<u8>) -> bool {
    &&& bytes.len() > 0
    &&& bytes.last() == 0
    &&& forall|i: int| 0 <= i < bytes.len() - 1 ==> #[trigger] bytes[i] != 0
}

/// What is read as a string at the start of `bytes`: the bytes before the first
/// zero, or all of them where none is zero.
pub open spec fn until_nul(bytes: Seq<u8>) -> Seq<u8>
    decreases bytes.len(),
{
    if bytes.len() == 0 || bytes[0] == 0 {
        Seq::empty()
    } else {
        seq![bytes[0]] + until_nul(bytes.drop_first())
    }
}

/// Where the first `n` bytes are not zero and the next one, if any, is, the
/// string read at the start of `bytes` is those `n` bytes.
pub proof fn lemma_until_nul(bytes: Seq<u8>, n: int)
    requires
        0 <= n <= bytes.len(),
        forall|i: int| 0 <= i < n ==> #[trigger] bytes[i] != 0,
        n < bytes.len() ==> bytes[n] == 0,
    ensures
        until_nul(bytes) == bytes.subrange(0, n),
    decreases n,
{
    if n == 0 {
        assert(until_nul(bytes) =~= bytes.subrange(0, 0));
    } else {
        let rest = bytes.drop_first();
        assert forall|i: int| 0 <= i < n - 1 implies #[trigger] rest[i] != 0 by {
            assert(rest[i] == bytes[i + 1]);
        }
        lemma_until_nul(rest, n - 1);
        assert(seq![bytes[0]] + rest.subrange(0, n - 1) =~= bytes.subrange(0, n));
    }
}

/// How many bytes are read as a string at the start of `bytes`: the position
/// of the first zero, or the length where none is zero.
pub fn c_len(bytes: &[u8]) -> (n: usize)
    ensures
        n <= bytes@.len(),
        forall|i: int| 0 <= i < n ==> #[trigger] bytes@[i] != 0,
        n < bytes@.len() ==> bytes@[n as int] == 0,
        until_nul(bytes@) == bytes@.subrange(0, n as int),
{
    let mut n: usize = 0;
    while n < bytes.len() && bytes[n] != 0
        invariant
            n <= bytes@.len(),
            forall|i: int| 0 <= i < n ==> #[trigger] bytes@[i] != 0,
        decreases bytes@.len() - n,
    {
        n += 1;
    }
    proof {
        lemma_until_nul(bytes@, n as int);
    }
    n
}

/// [`String::from_utf8`] of the standard library: bytes that are valid UTF-8
/// become the string that is made of them, and others are refused. Believed,
/// not proved.
#[verifier::external_body]
fn from_utf8(bytes: Vec<u8>) -> (text: Option<String>)
    ensures
        text is Some <==> valid_utf8(bytes@),
        text matches Some(string) ==> encode_utf8(string@) == bytes@,
{
    String::from_utf8(bytes).ok()
}

/// The text that `buffer` holds as a C string: its bytes before the first
/// zero, or all of them where none is zero, decoded as UTF-8; none where they
/// are not valid UTF-8.
pub open spec fn text_of(buffer: Seq<u8>) -> Option<Seq<char>> {
    if valid_utf8(until_nul(buffer)) {
        Some(decode_utf8(until_nul(buffer)))
    } else {
        None
    }
}

/// The native string for what the runtime handed out as a C string, or none
/// where its bytes are not valid UTF-8.
pub fn native(buffer: &[u8]) -> (text: Option<String>)
    ensures
        text is Some <==> text_of(buffer@) is Some,
        text matches Some(string) ==> text_of(buffer@) == Some(string@),
{
    let n: usize = c_len(buffer);
    let text = from_utf8(slice_to_vec(slice_subrange(buffer, 0, n)));
    proof {
        if text is Some {
            encode_utf8_decode_utf8(text->0@);
        }
    }
    text
}

/// A text whose encoding holds no zero byte survives the way out and back:
/// terminated with a zero and read again as a C string, its bytes are those it
/// went out with, and the text read from them is the text that went out.
pub proof fn lemma_round_trip(text: Seq<char>)
    requires
        !encode_utf8(text).contains(0u8),
    ensures
        is_c_string(c_string(text)),
        until_nul(c_string(text)) == encode_utf8(text),
        text_of(c_string(text)) == Some(text),
{
    let bytes = encode_utf8(text);
    let sent = c_string(text);
    assert forall|i: int| 0 <= i < bytes.len() implies #[trigger] sent[i] != 0 by {
        assert(sent[i] == bytes[i]);
        assert(bytes.contains(bytes[i]));
    }
    lemma_until_nul(sent, bytes.len() as int);
    assert(sent.subrange(0, bytes.len() as int) =~= bytes);
    encode_utf8_valid_utf8(text);
    encode_utf8_decode_utf8(text);
}

} // verus!
