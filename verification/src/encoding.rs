//! Standard base64 (RFC 4648, section 4) as a specification, and the call
//! that computes it.

use vstd::prelude::*;

verus! {

/// The sixty-four characters of the standard alphabet, in the order of the
/// six-bit values they stand for.
pub open spec fn alphabet() -> Seq<char> {
    "ABCDEFGHIJKLMNOPQRSTUVWXYZabcdefghijklmnopqrstuvwxyz0123456789+/"@
}

/// The character that stands for the six-bit value `v`.
pub open spec fn sextet_char(v: int) -> char {
    alphabet()[v]
}

/// The character that fills an incomplete final group.
pub open spec fn pad_char() -> char {
    '='
}

/// The character for the top six bits of a group's first byte.
pub open spec fn first_char(b0: u8) -> char {
    sextet_char(b0 as int / 4)
}

/// The character for the low two bits of the first byte and the top four of
/// the second.
pub open spec fn second_char(b0: u8, b1: u8) -> char {
    sextet_char(b0 as int % 4 * 16 + b1 as int / 16)
}

/// The character for the low four bits of the second byte and the top two of
/// the third.
pub open spec fn third_char(b1: u8, b2: u8) -> char {
    sextet_char(b1 as int % 16 * 4 + b2 as int / 64)
}

/// The character for the low six bits of a group's third byte.
pub open spec fn fourth_char(b2: u8) -> char {
    sextet_char(b2 as int % 64)
}

/// The standard base64 text of `bytes`, padded to a multiple of four
/// characters: each three bytes give four characters; a final group of one
/// or two bytes is filled with zero bits and gives two or three characters
/// and the padding.
pub open spec fn base64_standard(bytes: Seq<u8>) -> Seq<char>
    decreases bytes.len(),
{
    if bytes.len() == 0 {
        Seq::empty()
    } else if bytes.len() == 1 {
        seq![first_char(bytes[0]), second_char(bytes[0], 0), pad_char(), pad_char()]
    } else if bytes.len() == 2 {
        seq![
            first_char(bytes[0]),
            second_char(bytes[0], bytes[1]),
            third_char(bytes[1], 0),
            pad_char(),
        ]
    } else {
        seq![
            first_char(bytes[0]),
            second_char(bytes[0], bytes[1]),
            third_char(bytes[1], bytes[2]),
            fourth_char(bytes[2]),
        ] + base64_standard(bytes.skip(3))
    }
}

/// The six-bit value that an alphabet character stands for.
spec fn char_sextet(c: char) -> int {
    if 'A' <= c <= 'Z' {
        c as int - 'A' as int
    } else if 'a' <= c <= 'z' {
        c as int - 'a' as int + 26
    } else if '0' <= c <= '9' {
        c as int - '0' as int + 52
    } else if c == '+' {
        62
    } else {
        63
    }
}

/// Every six-bit value is recovered from its character, and no alphabet
/// character is the padding.
proof fn lemma_sextet_char(v: int)
    requires
        0 <= v < 64,
    ensures
        char_sextet(sextet_char(v)) == v,
        sextet_char(v) != pad_char(),
{
    reveal_strlit("ABCDEFGHIJKLMNOPQRSTUVWXYZabcdefghijklmnopqrstuvwxyz0123456789+/");
}

/// The encoded text has four characters for each group of up to three bytes.
pub proof fn lemma_base64_len(bytes: Seq<u8>)
    ensures
        base64_standard(bytes).len() == (bytes.len() + 2) / 3 * 4,
    decreases bytes.len(),
{
    if bytes.len() >= 3 {
        lemma_base64_len(bytes.skip(3));
    }
}

/// The bytes of a group are recovered from its characters.
proof fn lemma_group_injective(a0: u8, a1: u8, a2: u8, b0: u8, b1: u8, b2: u8)
    ensures
        first_char(a0) != pad_char(),
        second_char(a0, a1) != pad_char(),
        third_char(a1, a2) != pad_char(),
        fourth_char(a2) != pad_char(),
        third_char(b1, b2) != pad_char(),
        fourth_char(b2) != pad_char(),
        first_char(a0) == first_char(b0) && second_char(a0, a1) == second_char(b0, b1) ==> a0
            == b0,
        second_char(a0, a1) == second_char(b0, b1) && third_char(a1, a2) == third_char(b1, b2)
            ==> a1 == b1,
        third_char(a1, a2) == third_char(b1, b2) && fourth_char(a2) == fourth_char(b2) ==> a2
            == b2,
{
    lemma_sextet_char(a0 as int / 4);
    lemma_sextet_char(a0 as int % 4 * 16 + a1 as int / 16);
    lemma_sextet_char(a1 as int % 16 * 4 + a2 as int / 64);
    lemma_sextet_char(a2 as int % 64);
    lemma_sextet_char(b0 as int / 4);
    lemma_sextet_char(b0 as int % 4 * 16 + b1 as int / 16);
    lemma_sextet_char(b1 as int % 16 * 4 + b2 as int / 64);
    lemma_sextet_char(b2 as int % 64);
}

/// Standard base64 is reversible: two byte strings with the same text are
/// the same byte string.
pub proof fn lemma_base64_injective(a: Seq<u8>, b: Seq<u8>)
    requires
        base64_standard(a) == base64_standard(b),
    ensures
        a == b,
    decreases a.len(),
{
    lemma_base64_len(a);
    lemma_base64_len(b);
    let ta = base64_standard(a);
    let tb = base64_standard(b);
    if a.len() == 0 {
        assert(a =~= b);
    } else {
        assert(ta[0] == tb[0] && ta[1] == tb[1] && ta[2] == tb[2] && ta[3] == tb[3]);
        let a1 = if a.len() > 1 { a[1] } else { 0u8 };
        let a2 = if a.len() > 2 { a[2] } else { 0u8 };
        let b1 = if b.len() > 1 { b[1] } else { 0u8 };
        let b2 = if b.len() > 2 { b[2] } else { 0u8 };
        lemma_group_injective(a[0], a1, a2, b[0], b1, b2);
        if a.len() >= 3 && b.len() >= 3 {
            assert(base64_standard(a.skip(3)) =~= ta.skip(4));
            assert(base64_standard(b.skip(3)) =~= tb.skip(4));
            lemma_base64_injective(a.skip(3), b.skip(3));
            assert forall|i: int| 0 <= i < a.len() implies a[i] == b[i] by {
                if i >= 3 {
                    assert(a[i] == a.skip(3)[i - 3]);
                    assert(b[i] == b.skip(3)[i - 3]);
                }
            }
        }
        assert(a =~= b);
    }
}

/// The base64 text of `input`, computed by `base64::encode`.
///
/// The contract claims that the call returns the standard alphabet's text
/// with padding, as `base64_standard` states it. The call fails where the
/// length of that text does not fit in `usize`, which `requires` leaves out.
#[verifier::external_body]
pub(crate) fn encode_base64(input: &str) -> (out: String)
    requires
        (vstd::utf8::encode_utf8(input@).len() + 2) / 3 * 4 <= usize::MAX,
    ensures
        out@ == base64_standard(vstd::utf8::encode_utf8(input@)),
{
    base64::encode(input)
}

} // verus!
