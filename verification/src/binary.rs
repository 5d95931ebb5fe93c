//! The binary-to-text policy shared by all three relational decoders: try
//! UTF-8 first; over 100 bytes of undecodable data, report a placeholder with
//! the byte count; otherwise report the bytes as lowercase hex behind `0x`.

use vstd::prelude::*;
use vstd::string::StringExecFns;
use vstd::utf8::{decode_utf8, valid_utf8};

use crate::render::{dec_of, hex_of, is_lower_hex_char, lemma_hex_of_digits, lemma_hex_of_len,
    push_dec, push_hex};

verus! {

/// Relies on `String::from_utf8`: it returns `Ok` exactly when the bytes are
/// valid UTF-8, and the string then holds their decoding (both per vstd's
/// UTF-8 model).
#[verifier::external_body]
fn utf8_decode(bytes: &Vec<u8>) -> (r: Option<String>)
    ensures
        r is Some <==> valid_utf8(bytes@),
        r matches Some(s) ==> s@ == decode_utf8(bytes@),
{
    String::from_utf8(bytes.clone()).ok()
}

/// The text a binary cell decodes to.
pub open spec fn binary_text_model(b: Seq<u8>) -> Seq<char> {
    if valid_utf8(b) {
        decode_utf8(b)
    } else if b.len() > 100 {
        "<binary: "@ + dec_of(b.len() as int) + " bytes>"@
    } else {
        "0x"@ + hex_of(b)
    }
}

/// Decodes a raw binary cell to text under the shared policy.
pub fn decode_binary(bytes: &Vec<u8>) -> (r: String)
    ensures
        r@ == binary_text_model(bytes@),
{
    match utf8_decode(bytes) {
        Some(s) => s,
        None => {
            if bytes.len() > 100 {
                proof {
                    reveal_strlit("<binary: ");
                    reveal_strlit(" bytes>");
                }
                let mut s = String::from_str("<binary: ");
                push_dec(&mut s, bytes.len() as u64);
                s.append(" bytes>");
                proof {
                    assert(s@ =~= binary_text_model(bytes@));
                }
                s
            } else {
                proof {
                    reveal_strlit("0x");
                }
                let mut s = String::from_str("0x");
                push_hex(&mut s, bytes);
                s
            }
        },
    }
}

/// An undecodable binary cell of at most 100 bytes becomes a lowercase-hex
/// string behind the `0x` prefix, two digits per byte.
pub proof fn lemma_binary_short_is_hex(b: Seq<u8>)
    requires
        !valid_utf8(b),
        b.len() <= 100,
    ensures
        binary_text_model(b).len() == 2 * b.len() + 2,
        binary_text_model(b)[0] == '0',
        binary_text_model(b)[1] == 'x',
        forall|i: int|
            2 <= i < binary_text_model(b).len() ==> is_lower_hex_char(
                #[trigger] binary_text_model(b)[i],
            ),
{
    reveal_strlit("0x");
    lemma_hex_of_len(b);
    lemma_hex_of_digits(b);
    assert forall|i: int| 2 <= i < binary_text_model(b).len() implies is_lower_hex_char(
        #[trigger] binary_text_model(b)[i],
    ) by {
        assert(binary_text_model(b)[i] == hex_of(b)[i - 2]);
    }
}

/// An undecodable binary cell of over 100 bytes becomes the placeholder
/// naming its exact byte count.
pub proof fn lemma_binary_long_is_placeholder(b: Seq<u8>)
    requires
        !valid_utf8(b),
        b.len() > 100,
    ensures
        binary_text_model(b) == "<binary: "@ + dec_of(b.len() as int) + " bytes>"@,
{
}

} // verus!
