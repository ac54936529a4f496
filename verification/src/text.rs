//! Comparisons on string slices, stated over their character sequences and
//! computed on their bytes.

use vstd::prelude::*;
use vstd::utf8::{
    decode_utf8_split, encode_utf8, encode_utf8_decode_utf8, encode_utf8_valid_utf8,
    is_char_boundary, is_char_boundary_iff_not_is_continuation_byte,
    is_char_boundary_start_end_of_seq,
};

verus! {

/// The character sequences of a list of strings, in order.
pub open spec fn texts(strings: Seq<String>) -> Seq<Seq<char>> {
    Seq::new(strings.len(), |i: int| strings[i]@)
}

/// The character sequence of an optional string.
pub open spec fn text_of(string: Option<String>) -> Option<Seq<char>> {
    match string {
        Some(string) => Some(string@),
        None => None,
    }
}

/// Whether `whole` ends with the items of `tail`.
pub open spec fn ends_with<A>(whole: Seq<A>, tail: Seq<A>) -> bool {
    &&& tail.len() <= whole.len()
    &&& whole.subrange(whole.len() - tail.len(), whole.len() as int) == tail
}

/// Texts with the same encoding are the same text.
pub proof fn lemma_encoding_is_injective(left: Seq<char>, right: Seq<char>)
    requires
        encode_utf8(left) == encode_utf8(right),
    ensures
        left == right,
{
    encode_utf8_decode_utf8(left);
    encode_utf8_decode_utf8(right);
}

/// The encoding of two texts put together is their encodings put together.
pub proof fn lemma_encoding_of_concatenation(front: Seq<char>, back: Seq<char>)
    ensures
        encode_utf8(front + back) == encode_utf8(front) + encode_utf8(back),
    decreases front.len(),
{
    if front.len() > 0 {
        let rest = front.drop_first();
        lemma_encoding_of_concatenation(rest, back);
        assert((front + back).drop_first() =~= rest + back);
    }
}

/// A text ends with another exactly when its encoding ends with the
/// encoding of the other.
pub proof fn lemma_suffix_of_encoding(whole: Seq<char>, tail: Seq<char>)
    ensures
        ends_with(whole, tail) <==> ends_with(encode_utf8(whole), encode_utf8(tail)),
{
    let whole_bytes = encode_utf8(whole);
    let tail_bytes = encode_utf8(tail);
    encode_utf8_valid_utf8(whole);
    encode_utf8_valid_utf8(tail);
    encode_utf8_decode_utf8(whole);
    encode_utf8_decode_utf8(tail);
    if ends_with(whole, tail) {
        let front = whole.subrange(0, whole.len() - tail.len());
        assert(whole =~= front + tail);
        lemma_encoding_of_concatenation(front, tail);
        let front_bytes = encode_utf8(front);
        assert((front_bytes + tail_bytes).subrange(
            front_bytes.len() as int,
            (front_bytes + tail_bytes).len() as int,
        ) =~= tail_bytes);
    }
    if ends_with(whole_bytes, tail_bytes) {
        let cut = whole_bytes.len() - tail_bytes.len();
        assert(is_char_boundary(whole_bytes, cut)) by {
            is_char_boundary_start_end_of_seq(whole_bytes);
            if tail_bytes.len() > 0 {
                is_char_boundary_start_end_of_seq(tail_bytes);
                is_char_boundary_iff_not_is_continuation_byte(tail_bytes, 0);
                is_char_boundary_iff_not_is_continuation_byte(whole_bytes, cut);
            }
        }
        decode_utf8_split(whole_bytes, cut);
        assert(whole.subrange(whole.len() - tail.len(), whole.len() as int) =~= tail);
    }
}

/// Whether `whole` ends with the bytes of `tail`.
fn bytes_end_with(whole: &[u8], tail: &[u8]) -> (found: bool)
    ensures
        found == ends_with(whole@, tail@),
{
    if tail.len() > whole.len() {
        return false;
    }
    let cut: usize = whole.len() - tail.len();
    let ghost back = whole@.subrange(cut as int, whole@.len() as int);
    let mut index: usize = 0;
    while index < tail.len()
        invariant
            index <= tail.len(),
            cut + tail.len() == whole.len(),
            back == whole@.subrange(cut as int, whole@.len() as int),
            forall|j: int| 0 <= j < index ==> back[j] == tail@[j],
        decreases tail.len() - index,
    {
        if whole[cut + index] != tail[index] {
            return false;
        }
        index += 1;
    }
    assert(back =~= tail@);
    true
}

/// Whether two string slices hold the same characters in the same order:
/// whether their encodings have one length and one ends with the other.
pub fn same_text(left: &str, right: &str) -> (same: bool)
    ensures
        same == (left@ == right@),
{
    let left_bytes = left.as_bytes();
    let right_bytes = right.as_bytes();
    let same = left_bytes.len() == right_bytes.len() && bytes_end_with(left_bytes, right_bytes);
    proof {
        if same {
            assert(left_bytes@.subrange(0, left_bytes@.len() as int) =~= left_bytes@);
            lemma_encoding_is_injective(left@, right@);
        }
        if left@ == right@ {
            assert(left_bytes@.subrange(0, left_bytes@.len() as int) =~= left_bytes@);
        }
    }
    same
}

/// Whether the last characters of `whole` are those of `tail`. Every string
/// ends with the empty string.
pub fn has_suffix(whole: &str, tail: &str) -> (found: bool)
    ensures
        found == ends_with(whole@, tail@),
{
    proof {
        lemma_suffix_of_encoding(whole@, tail@);
    }
    bytes_end_with(whole.as_bytes(), tail.as_bytes())
}

} // verus!
