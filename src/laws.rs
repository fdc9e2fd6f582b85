//! Laws that relate the builder's operations to one another, stated over the
//! character sequences that the builder's contracts speak of.

use vstd::prelude::*;
use vstd::utf8::{
    decode_first_scalar, decode_utf8, decode_utf8_split, encode_utf8, encode_utf8_decode_utf8,
    encode_utf8_valid_utf8, is_char_boundary, is_char_boundary_iff_not_is_continuation_byte,
    length_of_first_scalar, pop_first_scalar, valid_first_scalar, valid_utf8, valid_utf8_concat,
    valid_utf8_split,
};

verus! {

/// Two appends onto an empty builder give the two fragments one after the other.
pub proof fn law_two_appends(start: Seq<char>, a: Seq<char>, b: Seq<char>)
    requires
        start.len() == 0,
    ensures
        start + a + b == a + b,
{
    assert(start + a + b =~= a + b);
}

/// Appending an empty fragment, or an empty byte slice, leaves the content as it was;
/// an empty byte slice is always accepted.
pub proof fn law_append_empty(buf: Seq<char>)
    ensures
        buf + Seq::<char>::empty() == buf,
        valid_utf8(Seq::<u8>::empty()),
        buf + decode_utf8(Seq::<u8>::empty()) == buf,
{
    assert(buf + Seq::<char>::empty() =~= buf);
    assert(decode_utf8(Seq::<u8>::empty()) =~= Seq::<char>::empty());
}

/// The UTF-8 encoding of any text is accepted by the byte appends, and appending it to
/// an empty builder gives back exactly that text.
pub proof fn law_round_trip(t: Seq<char>)
    ensures
        valid_utf8(encode_utf8(t)),
        Seq::<char>::empty() + decode_utf8(encode_utf8(t)) == t,
{
    encode_utf8_valid_utf8(t);
    encode_utf8_decode_utf8(t);
    assert(Seq::<char>::empty() + decode_utf8(encode_utf8(t)) =~= t);
}

/// Decoding two well-formed byte sequences one after the other gives the same text as
/// decoding their concatenation in one go.
pub proof fn lemma_decode_concat(b1: Seq<u8>, b2: Seq<u8>)
    requires
        valid_utf8(b1),
        valid_utf8(b2),
    ensures
        valid_utf8(b1 + b2),
        decode_utf8(b1 + b2) == decode_utf8(b1) + decode_utf8(b2),
    decreases b1.len(),
{
    valid_utf8_concat(b1, b2);
    if b1.len() == 0 {
        assert(b1 + b2 =~= b2);
        assert(decode_utf8(b1) + decode_utf8(b2) =~= decode_utf8(b2));
    } else {
        let rest = pop_first_scalar(b1);
        assert(rest.len() < b1.len());
        lemma_decode_concat(rest, b2);
        assert(pop_first_scalar(b1 + b2) =~= rest + b2);
        assert(decode_first_scalar(b1 + b2) == decode_first_scalar(b1));
        assert(decode_utf8(b1 + b2) =~= decode_utf8(b1) + decode_utf8(b2));
    }
}

/// Cutting well-formed bytes at a character boundary gives two well-formed pieces, and
/// appending the pieces one after the other gives what appending the whole gives.
pub proof fn law_split_at_boundary(buf: Seq<char>, bs: Seq<u8>, i: int)
    requires
        valid_utf8(bs),
        is_char_boundary(bs, i),
    ensures
        valid_utf8(bs.subrange(0, i)),
        valid_utf8(bs.subrange(i, bs.len() as int)),
        buf + decode_utf8(bs.subrange(0, i)) + decode_utf8(bs.subrange(i, bs.len() as int))
            == buf + decode_utf8(bs),
{
    valid_utf8_split(bs, i);
    decode_utf8_split(bs, i);
    assert(buf + decode_utf8(bs.subrange(0, i)) + decode_utf8(bs.subrange(i, bs.len() as int))
        =~= buf + decode_utf8(bs));
}

/// A well-formed prefix of well-formed bytes ends on a character boundary.
proof fn lemma_valid_prefix_ends_on_boundary(bs: Seq<u8>, i: int)
    requires
        valid_utf8(bs),
        0 <= i <= bs.len(),
        valid_utf8(bs.subrange(0, i)),
    ensures
        is_char_boundary(bs, i),
    decreases bs.len(),
{
    if i > 0 {
        let p = bs.subrange(0, i);
        assert(valid_first_scalar(p));
        let n = length_of_first_scalar(p);
        assert(p[0] == bs[0]);
        assert(length_of_first_scalar(bs) == n);
        let rest = pop_first_scalar(bs);
        assert(pop_first_scalar(p) =~= rest.subrange(0, i - n));
        lemma_valid_prefix_ends_on_boundary(rest, i - n);
    }
}

/// Cutting well-formed bytes inside a multi-byte character leaves two pieces that are
/// both malformed, so the byte appends refuse each of them.
pub proof fn law_split_inside_char(bs: Seq<u8>, i: int)
    requires
        valid_utf8(bs),
        0 <= i <= bs.len(),
        !is_char_boundary(bs, i),
    ensures
        !valid_utf8(bs.subrange(0, i)),
        !valid_utf8(bs.subrange(i, bs.len() as int)),
{
    if valid_utf8(bs.subrange(0, i)) {
        lemma_valid_prefix_ends_on_boundary(bs, i);
    }
    vstd::utf8::is_char_boundary_start_end_of_seq(bs);
    is_char_boundary_iff_not_is_continuation_byte(bs, i);
    let s = bs.subrange(i, bs.len() as int);
    assert(s[0] == bs[i]);
}

/// A chain that alternates a text append, a byte append and another text append builds
/// the same text as one byte append of all three inputs concatenated as UTF-8.
pub proof fn law_mixed_chain(buf: Seq<char>, a: Seq<char>, bs: Seq<u8>, c: Seq<char>)
    requires
        valid_utf8(bs),
    ensures
        valid_utf8(encode_utf8(a) + bs + encode_utf8(c)),
        buf + a + decode_utf8(bs) + c == buf + decode_utf8(encode_utf8(a) + bs + encode_utf8(c)),
{
    encode_utf8_valid_utf8(a);
    encode_utf8_valid_utf8(c);
    encode_utf8_decode_utf8(a);
    encode_utf8_decode_utf8(c);
    lemma_decode_concat(encode_utf8(a), bs);
    lemma_decode_concat(encode_utf8(a) + bs, encode_utf8(c));
    assert(buf + a + decode_utf8(bs) + c =~= buf + decode_utf8(
        encode_utf8(a) + bs + encode_utf8(c),
    ));
}

} // verus!
