//! Global node identifiers of users.

use vstd::prelude::*;
use vstd::utf8::{encode_utf8, is_ascii_chars};
use crate::encoding::{base64_standard, encode_base64, lemma_base64_injective};
use crate::text::{
    decimal_text,
    lemma_decimal_digits,
    lemma_decimal_injective,
    lemma_decimal_len,
    pow10,
    push_decimal,
};

verus! {

/// What precedes the database identifier in the plain text of a user's node
/// identifier.
pub const USER_NODE_PREFIX: &'static str = "04:User";

/// The plain text of the node identifier of the user with database
/// identifier `id`: the prefix, then `id` in decimal notation.
pub open spec fn node_text(id: nat) -> Seq<char> {
    USER_NODE_PREFIX@ + decimal_text(id)
}

/// The node identifier of the user with database identifier `id`: the
/// standard base64 text of the UTF-8 bytes of its plain text.
pub open spec fn node_id(id: nat) -> Seq<char> {
    base64_standard(encode_utf8(node_text(id)))
}

/// The plain text of a node identifier is ASCII and short.
proof fn lemma_node_text_ascii(id: nat)
    requires
        id <= u64::MAX,
    ensures
        is_ascii_chars(node_text(id)),
        encode_utf8(node_text(id)).len() == node_text(id).len(),
        node_text(id).len() <= 27,
{
    reveal_strlit("04:User");
    lemma_decimal_digits(id);
    assert(pow10(20) == 100000000000000000000) by {
        reveal_with_fuel(pow10, 21);
    }
    lemma_decimal_len(id, 20);
    assert(is_ascii_chars(node_text(id))) by {
        assert forall|i: int| 0 <= i < node_text(id).len() implies '\0' <= #[trigger] node_text(
            id,
        )[i] <= '\u{7f}' by {
            if i >= 7 {
                assert(node_text(id)[i] == decimal_text(id)[i - 7]);
            }
        }
    }
    vstd::utf8::is_ascii_chars_encode_utf8(node_text(id));
}

/// The node identifier of the user with database identifier `id`.
pub fn user_node_id(id: usize) -> (out: String)
    ensures
        out@ == node_id(id as nat),
{
    let mut text = String::from_str(USER_NODE_PREFIX);
    push_decimal(&mut text, id);
    proof {
        lemma_node_text_ascii(id as nat);
    }
    encode_base64(text.as_str())
}

/// The encoding is injective: two database identifiers with the same node
/// identifier are the same identifier.
pub proof fn lemma_node_id_injective(a: nat, b: nat)
    requires
        node_id(a) == node_id(b),
    ensures
        a == b,
{
    lemma_base64_injective(encode_utf8(node_text(a)), encode_utf8(node_text(b)));
    vstd::utf8::encode_utf8_decode_utf8(node_text(a));
    vstd::utf8::encode_utf8_decode_utf8(node_text(b));
    assert(node_text(a) == node_text(b));
    assert(decimal_text(a) =~= node_text(a).skip(USER_NODE_PREFIX@.len() as int));
    assert(decimal_text(b) =~= node_text(b).skip(USER_NODE_PREFIX@.len() as int));
    lemma_decimal_injective(a, b);
}

} // verus!
