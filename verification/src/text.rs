//! Text helpers shared by the session modules: joining strings, comparing
//! them, and turning raw terminal bytes into text.

use vstd::prelude::*;
use vstd::utf8::{
    decode_utf8, encode_utf8, encode_utf8_decode_utf8, encode_utf8_valid_utf8, valid_utf8,
};

verus! {

/// The text that `String::from_utf8_lossy` yields for `bytes`: valid UTF-8 is
/// decoded as it stands and every invalid sequence becomes U+FFFD.
pub uninterp spec fn lossy_text(bytes: Seq<u8>) -> Seq<char>;

/// Best-effort decoding of terminal output through `String::from_utf8_lossy`.
///
/// The standard library documents that the conversion never fails, that
/// invalid sequences are replaced by U+FFFD, and that valid UTF-8 comes back
/// unchanged; the contract names the result and states the last point.
#[verifier::external_body]
fn from_utf8_lossy(bytes: &[u8]) -> (text: String)
    ensures
        text@ == lossy_text(bytes@),
        valid_utf8(bytes@) ==> text@ == decode_utf8(bytes@),
{
    String::from_utf8_lossy(bytes).into_owned()
}

/// The text published for a chunk of terminal output: valid UTF-8 is decoded
/// as it stands, anything else with its invalid sequences replaced.
pub open spec fn decoded_text(bytes: Seq<u8>) -> Seq<char> {
    if valid_utf8(bytes) {
        decode_utf8(bytes)
    } else {
        lossy_text(bytes)
    }
}

/// Decodes a chunk of terminal output as text. Bytes that are not valid
/// UTF-8 are replaced, never refused.
pub fn decode(bytes: &[u8]) -> (text: String)
    ensures
        text@ == decoded_text(bytes@),
{
    from_utf8_lossy(bytes)
}

/// The bytes of a text decode to that text, and a text that is not empty
/// has bytes.
pub proof fn lemma_text_round_trip(text: Seq<char>)
    ensures
        decoded_text(encode_utf8(text)) == text,
        text.len() > 0 ==> encode_utf8(text).len() > 0,
{
    encode_utf8_valid_utf8(text);
    encode_utf8_decode_utf8(text);
    if encode_utf8(text).len() == 0 {
        assert(decode_utf8(encode_utf8(text)) =~= Seq::<char>::empty());
    }
}

/// Whether `text` starts with `prefix`.
pub open spec fn begins_with(text: Seq<char>, prefix: Seq<char>) -> bool {
    prefix.len() <= text.len() && text.subrange(0, prefix.len() as int) == prefix
}

/// A text that is `prefix` followed by anything starts with `prefix`.
pub proof fn lemma_begins_with(prefix: Seq<char>, rest: Seq<char>)
    ensures
        begins_with(prefix + rest, prefix),
{
    assert((prefix + rest).subrange(0, prefix.len() as int) =~= prefix);
}

/// Putting `head` in front of a text that starts with `prefix` gives a text
/// that starts with `head` followed by `prefix`.
pub proof fn lemma_begins_with_after(head: Seq<char>, text: Seq<char>, prefix: Seq<char>)
    requires
        begins_with(text, prefix),
    ensures
        begins_with(head + text, head + prefix),
{
    assert(text.subrange(0, prefix.len() as int) == prefix);
    assert((head + text).subrange(0, (head + prefix).len() as int) =~= head + prefix);
}

/// `a` followed by `b`.
pub fn join(a: &str, b: &str) -> (joined: String)
    ensures
        joined@ == a@ + b@,
{
    let mut joined = a.to_owned();
    joined.append(b);
    joined
}

/// Whether two strings hold the same characters.
pub fn same_text(a: &str, b: &str) -> (same: bool)
    ensures
        same == (a@ == b@),
{
    let left = a.to_owned();
    let right = b.to_owned();
    left == right
}

} // verus!
