//! Comparisons of strings, carried out on their UTF-8 bytes and stated over
//! their characters; and the reading of bytes that may not be UTF-8.

use vstd::prelude::*;
use vstd::utf8::*;

verus! {

/// The UTF-8 encoding of a concatenation is the concatenation of the
/// encodings.
pub proof fn lemma_encode_concat(a: Seq<char>, b: Seq<char>)
    ensures
        encode_utf8(a + b) == encode_utf8(a) + encode_utf8(b),
    decreases a.len(),
{
    if a.len() == 0 {
        assert(a + b =~= b);
        assert(encode_utf8(a) + encode_utf8(b) =~= encode_utf8(b));
    } else {
        lemma_encode_concat(a.drop_first(), b);
        assert((a + b).drop_first() =~= a.drop_first() + b);
        assert(encode_utf8(a + b) =~= encode_utf8(a) + encode_utf8(b));
    }
}

/// Two character sequences with the same UTF-8 encoding are the same.
pub proof fn lemma_encode_injective(a: Seq<char>, b: Seq<char>)
    requires
        encode_utf8(a) == encode_utf8(b),
    ensures
        a == b,
{
    encode_utf8_decode_utf8(a);
    encode_utf8_decode_utf8(b);
}

/// A suffix in characters is a suffix in bytes.
pub proof fn lemma_suffix_encodes(s: Seq<char>, suffix: Seq<char>)
    requires
        suffix.is_suffix_of(s),
    ensures
        encode_utf8(suffix).is_suffix_of(encode_utf8(s)),
{
    let head = s.subrange(0, s.len() - suffix.len());
    assert(s =~= head + suffix);
    lemma_encode_concat(head, suffix);
}

/// A suffix in bytes, between the encodings of two strings, is a suffix in
/// characters.
pub proof fn lemma_suffix_decodes(s: Seq<char>, suffix: Seq<char>)
    requires
        encode_utf8(suffix).is_suffix_of(encode_utf8(s)),
    ensures
        suffix.is_suffix_of(s),
{
    let bytes = encode_utf8(s);
    let tail = encode_utf8(suffix);
    let cut = bytes.len() - tail.len();
    encode_utf8_valid_utf8(s);
    encode_utf8_valid_utf8(suffix);
    encode_utf8_decode_utf8(s);
    encode_utf8_decode_utf8(suffix);
    assert(is_char_boundary(bytes, cut)) by {
        if tail.len() == 0 {
            is_char_boundary_start_end_of_seq(bytes);
        } else {
            is_char_boundary_start_end_of_seq(tail);
            is_char_boundary_iff_not_is_continuation_byte(tail, 0);
            assert(bytes[cut] == tail[0]);
            is_char_boundary_iff_not_is_continuation_byte(bytes, cut);
        }
    }
    decode_utf8_split(bytes, cut);
    let head = decode_utf8(bytes.subrange(0, cut));
    assert(bytes.subrange(cut, bytes.len() as int) == tail);
    assert(s == head + suffix);
    assert(suffix =~= s.subrange(s.len() - suffix.len(), s.len() as int));
}

/// Tells whether `s` ends with `suffix`.
pub fn ends_with(s: &str, suffix: &str) -> (b: bool)
    ensures
        b == suffix@.is_suffix_of(s@),
{
    let bytes = s.as_bytes();
    let tail = suffix.as_bytes();
    let n: usize = bytes.len();
    let m: usize = tail.len();
    if n < m {
        proof {
            if suffix@.is_suffix_of(s@) {
                lemma_suffix_encodes(s@, suffix@);
            }
        }
        return false;
    }
    let cut: usize = n - m;
    let mut i: usize = 0;
    while i < m
        invariant
            i <= m,
            cut + m == n,
            bytes@.len() == n,
            tail@.len() == m,
            bytes@ == encode_utf8(s@),
            tail@ == encode_utf8(suffix@),
            forall|j: int| 0 <= j < i ==> bytes@[cut + j] == tail@[j],
        decreases m - i,
    {
        if bytes[cut + i] != tail[i] {
            proof {
                if suffix@.is_suffix_of(s@) {
                    lemma_suffix_encodes(s@, suffix@);
                    assert(bytes@.subrange(cut as int, n as int)[i as int] == tail@[i as int]);
                }
            }
            return false;
        }
        i += 1;
    }
    proof {
        assert(tail@ =~= bytes@.subrange(cut as int, n as int));
        lemma_suffix_decodes(s@, suffix@);
    }
    true
}

/// Tells whether `a` and `b` hold the same characters.
pub fn same_text(a: &str, b: &str) -> (same: bool)
    ensures
        same == (a@ == b@),
{
    let left = a.as_bytes();
    let right = b.as_bytes();
    let n: usize = left.len();
    if n != right.len() {
        return false;
    }
    let mut i: usize = 0;
    while i < n
        invariant
            i <= n,
            left@.len() == n,
            right@.len() == n,
            left@ == encode_utf8(a@),
            right@ == encode_utf8(b@),
            forall|j: int| 0 <= j < i ==> left@[j] == right@[j],
        decreases n - i,
    {
        if left[i] != right[i] {
            return false;
        }
        i += 1;
    }
    proof {
        assert(left@ =~= right@);
        lemma_encode_injective(a@, b@);
    }
    true
}

/// What `String::from_utf8_lossy` makes of `bytes`.
pub uninterp spec fn lossy_text(bytes: Seq<u8>) -> Seq<char>;

/// Calls `String::from_utf8_lossy` on `bytes` and hands back an owned copy
/// of its result. Trusted: the result is a function of the bytes alone,
/// named `lossy_text`; and bytes that are valid UTF-8 come back as the very
/// text that they encode. What becomes of invalid bytes is not stated.
#[verifier::external_body]
pub(crate) fn decode_lossy(bytes: &[u8]) -> (text: String)
    ensures
        text@ == lossy_text(bytes@),
        valid_utf8(bytes@) ==> text@ == decode_utf8(bytes@),
{
    String::from_utf8_lossy(bytes).into_owned()
}

} // verus!
