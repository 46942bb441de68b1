//! Code-unit arithmetic: how many UTF-8 bytes and how many UTF-16 units a
//! character takes, and where a UTF-16 offset falls among the bytes of a text.

use vstd::prelude::*;
use vstd::utf8::*;

verus! {

/// The number of UTF-16 code units that `c` takes.
pub open spec fn utf16_units(c: char) -> nat {
    if (c as u32) >= 0x10000 {
        2
    } else {
        1
    }
}

/// The number of UTF-8 bytes that `c` takes.
pub open spec fn utf8_units(c: char) -> nat {
    encode_scalar(c as u32).len()
}

/// The number of bytes in the UTF-8 encoding of `s`.
pub open spec fn utf8_length(s: Seq<char>) -> nat {
    encode_utf8(s).len()
}

/// The number of leading characters of `s` that lie wholly within the first
/// `offset` UTF-16 code units.
pub open spec fn chars_within(s: Seq<char>, offset: nat) -> nat
    decreases s.len(),
{
    if s.len() == 0 || utf16_units(s[0]) > offset {
        0
    } else {
        1 + chars_within(s.drop_first(), (offset - utf16_units(s[0])) as nat)
    }
}

/// The byte index in the UTF-8 encoding of `s` of the character that holds
/// UTF-16 offset `offset`: the length of the encoding of the characters
/// before it. Past the end of `s` it is the length of the whole encoding.
pub open spec fn byte_index_of(s: Seq<char>, offset: nat) -> nat {
    utf8_length(s.take(chars_within(s, offset) as int))
}

/// No more characters lie within an offset than the text has.
pub proof fn lemma_chars_within_bound(s: Seq<char>, offset: nat)
    ensures
        chars_within(s, offset) <= s.len(),
    decreases s.len(),
{
    if !(s.len() == 0 || utf16_units(s[0]) > offset) {
        lemma_chars_within_bound(s.drop_first(), (offset - utf16_units(s[0])) as nat);
    }
}

/// The encoding of a concatenation is the concatenation of the encodings.
pub proof fn lemma_encode_concat(a: Seq<char>, b: Seq<char>)
    ensures
        encode_utf8(a + b) == encode_utf8(a) + encode_utf8(b),
    decreases a.len(),
{
    if a.len() == 0 {
        assert(a + b =~= b);
        assert(encode_utf8(a) + encode_utf8(b) =~= encode_utf8(b));
    } else {
        assert((a + b).drop_first() =~= a.drop_first() + b);
        lemma_encode_concat(a.drop_first(), b);
        assert(encode_utf8(a + b) =~= encode_utf8(a) + encode_utf8(b));
    }
}

/// A character takes one to four bytes.
pub proof fn lemma_utf8_units_bounds(c: char)
    ensures
        1 <= utf8_units(c) <= 4,
{
}

/// The encoding of a prefix is no longer than the encoding of the whole.
pub proof fn lemma_prefix_length(s: Seq<char>, k: int)
    requires
        0 <= k <= s.len(),
    ensures
        utf8_length(s.take(k)) <= utf8_length(s),
        k < s.len() ==> utf8_length(s.take(k + 1)) == utf8_length(s.take(k)) + utf8_units(s[k]),
{
    assert(s =~= s.take(k) + s.skip(k));
    lemma_encode_concat(s.take(k), s.skip(k));
    if k < s.len() {
        assert(s.take(k + 1) =~= s.take(k) + seq![s[k]]);
        lemma_encode_concat(s.take(k), seq![s[k]]);
        assert(seq![s[k]].drop_first() =~= Seq::<char>::empty());
        assert(encode_utf8(seq![s[k]]) =~= encode_scalar(s[k] as u32)) by {
            reveal_with_fuel(encode_utf8, 2);
        }
    }
}

/// The end of the encoding of a prefix is a character boundary of the
/// encoding of the whole.
pub proof fn lemma_prefix_is_boundary(s: Seq<char>, k: int)
    requires
        0 <= k <= s.len(),
    ensures
        is_char_boundary(encode_utf8(s), utf8_length(s.take(k)) as int),
    decreases k,
{
    let bytes = encode_utf8(s);
    encode_utf8_valid_utf8(s);
    if k == 0 {
        assert(s.take(0) =~= Seq::<char>::empty());
    } else {
        let rest = s.drop_first();
        lemma_prefix_length(s, k);
        encode_utf8_first_scalar(s);
        lemma_utf8_units_bounds(s[0]);
        assert(pop_first_scalar(bytes) =~= encode_utf8(rest));
        assert(s.take(k) =~= seq![s[0]] + rest.take(k - 1));
        lemma_encode_concat(seq![s[0]], rest.take(k - 1));
        assert(seq![s[0]].drop_first() =~= Seq::<char>::empty());
        assert(encode_utf8(seq![s[0]]) =~= encode_scalar(s[0] as u32)) by {
            reveal_with_fuel(encode_utf8, 2);
        }
        lemma_prefix_is_boundary(rest, k - 1);
    }
}

/// Counts the UTF-16 code units of `c`.
pub fn utf16_width(c: char) -> (n: usize)
    ensures
        n == utf16_units(c),
{
    if (c as u32) >= 0x10000 {
        2
    } else {
        1
    }
}

/// Counts the UTF-8 bytes of `c`.
pub fn utf8_width(c: char) -> (n: usize)
    ensures
        n == utf8_units(c),
{
    proof {
        char_is_scalar(c);
    }
    let u: u32 = c as u32;
    if u < 0x80 {
        1
    } else if u < 0x800 {
        2
    } else if u < 0x10000 {
        3
    } else {
        4
    }
}

} // verus!
