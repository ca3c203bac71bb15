//! Bytes as text: UTF-8, and strings that end in a zero byte.

use vstd::prelude::*;
use vstd::utf8::{decode_utf8, encode_utf8, valid_utf8};

verus! {

/// What `String::from_utf8_lossy` makes of some bytes.
pub uninterp spec fn utf8_lossy(bytes: Seq<u8>) -> Seq<char>;

/// `String::from_utf8_lossy`: the text that `bytes` encode, with replacement
/// characters where they are not UTF-8. Bytes that are UTF-8 throughout are
/// decoded as they stand; what replaces the others is left unsaid.
#[verifier::external_body]
fn from_utf8_lossy(bytes: &[u8]) -> (s: String)
    ensures
        s@ == utf8_lossy(bytes@),
        valid_utf8(bytes@) ==> s@ == decode_utf8(bytes@),
{
    String::from_utf8_lossy(bytes).into_owned()
}

/// `std::str::from_utf8`: whether `bytes` are UTF-8.
#[verifier::external_body]
fn from_utf8_is_ok(bytes: &[u8]) -> (yes: bool)
    ensures
        yes == valid_utf8(bytes@),
{
    std::str::from_utf8(bytes).is_ok()
}

/// A copy of `bytes`.
pub fn copy_bytes(bytes: &[u8]) -> (copy: Vec<u8>)
    ensures
        copy@ == bytes@,
{
    let mut copy: Vec<u8> = Vec::new();
    copy.extend_from_slice(bytes);
    assert(copy@ == bytes@);
    copy
}

/// The text that `bytes` encode, with replacement characters where they are
/// not UTF-8.
pub fn decode_lossy(bytes: &[u8]) -> (s: String)
    ensures
        s@ == utf8_lossy(bytes@),
        valid_utf8(bytes@) ==> s@ == decode_utf8(bytes@),
{
    from_utf8_lossy(bytes)
}

/// Whether `bytes` are UTF-8.
pub fn is_utf8(bytes: &[u8]) -> (yes: bool)
    ensures
        yes == valid_utf8(bytes@),
{
    from_utf8_is_ok(bytes)
}

/// Text that was encoded decodes to itself.
pub proof fn encoded_text_decodes_to_itself(text: Seq<char>)
    ensures
        valid_utf8(encode_utf8(text)),
        decode_utf8(encode_utf8(text)) == text,
{
    vstd::utf8::encode_utf8_valid_utf8(text);
    vstd::utf8::encode_utf8_decode_utf8(text);
}

/// The bytes of a string for a reader that stops at a zero byte: those of
/// `text` if it holds no zero itself, else none, and then the zero.
pub open spec fn c_string(text: Seq<char>) -> Seq<u8> {
    let bytes = encode_utf8(text);
    if bytes.contains(0u8) {
        seq![0u8]
    } else {
        bytes.push(0u8)
    }
}

/// The bytes of `s` for a reader that stops at a zero byte.
pub fn to_c_string(s: &str) -> (bytes: Vec<u8>)
    ensures
        bytes@ == c_string(s@),
{
    let source = s.as_bytes();
    let mut bytes: Vec<u8> = Vec::new();
    let mut i: usize = 0;
    while i < source.len()
        invariant
            i <= source.len(),
            source@ == encode_utf8(s@),
            bytes@ == source@.take(i as int),
            forall|j: int| 0 <= j < i ==> source@[j] != 0,
        decreases source.len() - i,
    {
        if source[i] == 0 {
            assert(source@.contains(0u8));
            let mut empty: Vec<u8> = Vec::new();
            empty.push(0);
            return empty;
        }
        bytes.push(source[i]);
        i += 1;
    }
    assert(source@.take(source@.len() as int) == source@);
    bytes.push(0);
    bytes
}

/// A zero byte ends such a string and stands nowhere else in it, so a reader
/// that stops at the first one reads exactly what was meant.
pub proof fn a_zero_byte_only_ends_a_c_string(text: Seq<char>, i: int)
    requires
        0 <= i < c_string(text).len(),
    ensures
        c_string(text)[i] == 0 <==> i == c_string(text).len() - 1,
{
    let bytes = encode_utf8(text);
    if !bytes.contains(0u8) && i < bytes.len() {
        assert(bytes.contains(bytes[i]));
    }
}

/// `bytes` up to, and without, the first zero byte.
pub open spec fn before_zero(bytes: Seq<u8>) -> Seq<u8>
    decreases bytes.len(),
{
    if bytes.len() == 0 || bytes.first() == 0 {
        Seq::empty()
    } else {
        seq![bytes.first()] + before_zero(bytes.drop_first())
    }
}

/// Copies `bytes` up to the first zero byte.
pub fn take_before_zero(bytes: &[u8]) -> (taken: Vec<u8>)
    ensures
        taken@ == before_zero(bytes@),
{
    let mut taken: Vec<u8> = Vec::new();
    let mut i: usize = 0;
    assert(bytes@.skip(0) == bytes@);
    assert(taken@ + before_zero(bytes@) == before_zero(bytes@));
    while i < bytes.len() && bytes[i] != 0
        invariant
            i <= bytes.len(),
            before_zero(bytes@) == taken@ + before_zero(bytes@.skip(i as int)),
        decreases bytes.len() - i,
    {
        let ghost rest = bytes@.skip(i as int);
        let ghost before = taken@;
        taken.push(bytes[i]);
        proof {
            assert(rest.drop_first() == bytes@.skip(i + 1));
            assert(before + (seq![rest.first()] + before_zero(rest.drop_first())) == taken@
                + before_zero(rest.drop_first()));
        }
        i += 1;
    }
    assert(before_zero(bytes@.skip(i as int)) == Seq::<u8>::empty());
    assert(taken@ + Seq::<u8>::empty() == taken@);
    taken
}

/// What is taken before a zero byte are the first bytes, none of which is
/// zero; and either a zero follows, or there is nothing left.
pub proof fn what_is_taken_ends_at_the_first_zero(bytes: &[u8], taken: Vec<u8>)
    requires
        call_ensures(take_before_zero, (bytes,), taken),
    ensures
        taken@.len() <= bytes@.len(),
        taken@ == bytes@.take(taken@.len() as int),
        !taken@.contains(0u8),
        taken@.len() < bytes@.len() ==> bytes@[taken@.len() as int] == 0,
{
    lemma_before_zero(bytes@);
}

proof fn lemma_before_zero(bytes: Seq<u8>)
    ensures
        before_zero(bytes).len() <= bytes.len(),
        before_zero(bytes) == bytes.take(before_zero(bytes).len() as int),
        !before_zero(bytes).contains(0u8),
        before_zero(bytes).len() < bytes.len() ==> bytes[before_zero(bytes).len() as int] == 0,
    decreases bytes.len(),
{
    if bytes.len() > 0 && bytes.first() != 0 {
        let rest = bytes.drop_first();
        lemma_before_zero(rest);
        let taken = before_zero(rest);
        let n = taken.len() as int;
        assert(before_zero(bytes) == seq![bytes.first()] + taken);
        assert(bytes.take(n + 1) == seq![bytes.first()] + rest.take(n));
        assert(!before_zero(bytes).contains(0u8)) by {
            if before_zero(bytes).contains(0u8) {
                let i = before_zero(bytes).index_of(0u8);
                assert(i > 0);
                assert(taken[i - 1] == 0);
            }
        }
    } else {
        assert(bytes.take(0) == Seq::<u8>::empty());
    }
}

/// A string without a zero in it is handed over byte for byte, with a zero
/// after the last; one with a zero in it is handed over as empty.
pub proof fn a_c_string_holds_the_text(s: &str, bytes: Vec<u8>)
    requires
        call_ensures(to_c_string, (s,), bytes),
    ensures
        bytes@.len() > 0,
        bytes@.last() == 0,
        !encode_utf8(s@).contains(0u8) ==> bytes@.drop_last() == encode_utf8(s@),
        encode_utf8(s@).contains(0u8) ==> bytes@.len() == 1,
{
    assert(encode_utf8(s@).push(0u8).drop_last() == encode_utf8(s@));
}

} // verus!
