//! Byte buffers viewed as text.

use vstd::prelude::*;
use vstd::string::StringSliceAdditionalSpecFns;
use vstd::utf8::{decode_utf8, encode_utf8, pop_first_scalar, valid_utf8};

verus! {

/// Whether every byte is ASCII.
pub open spec fn all_ascii(bytes: Seq<u8>) -> bool {
    forall|i: int| 0 <= i < bytes.len() ==> #[trigger] bytes[i] < 128
}

/// The characters of ASCII bytes.
pub open spec fn ascii_chars(bytes: Seq<u8>) -> Seq<char> {
    bytes.map_values(|b: u8| b as char)
}

/// ASCII bytes are valid UTF-8 and decode to one character each.
pub proof fn lemma_ascii_utf8(bytes: Seq<u8>)
    requires
        all_ascii(bytes),
    ensures
        valid_utf8(bytes),
        decode_utf8(bytes) == ascii_chars(bytes),
    decreases bytes.len(),
{
    if bytes.len() > 0 {
        let b = bytes[0];
        assert(b < 128);
        assert((b & 0x7f) == b) by (bit_vector)
            requires b < 128;
        let rest = bytes.subrange(1, bytes.len() as int);
        assert(pop_first_scalar(bytes) =~= rest);
        assert(all_ascii(rest)) by {
            assert forall|i: int| 0 <= i < rest.len() implies #[trigger] rest[i] < 128 by {
                assert(rest[i] == bytes[i + 1]);
            }
        }
        lemma_ascii_utf8(rest);
        assert(ascii_chars(bytes) =~= seq![b as char] + ascii_chars(rest));
    }
}

/// Decodes `v` as UTF-8 (std's `core::str::from_utf8`). Its documentation
/// promises `Ok` exactly when `v` is valid UTF-8, with a string whose bytes
/// are `v`.
#[verifier::external_body]
pub(crate) fn str_from_utf8(v: &[u8]) -> (r: Option<&str>)
    ensures
        r is Some <==> valid_utf8(v@),
        r matches Some(s) ==> s.spec_bytes() == v@,
{
    core::str::from_utf8(v).ok()
}

/// A string's characters are the decoding of its bytes.
pub proof fn lemma_str_chars(s: &str)
    ensures
        s@ == decode_utf8(s.spec_bytes()),
{
    vstd::utf8::encode_utf8_decode_utf8(s@);
}

/// `v` as a string, when it is valid UTF-8; for ASCII bytes always, with one
/// character per byte.
pub fn ascii_str(v: &[u8]) -> (r: Option<&str>)
    ensures
        r is Some <==> valid_utf8(v@),
        r matches Some(s) ==> s.spec_bytes() == v@ && s@ == decode_utf8(v@),
        all_ascii(v@) ==> (r matches Some(s) && s@ == ascii_chars(v@)),
{
    let r = str_from_utf8(v);
    proof {
        if all_ascii(v@) {
            lemma_ascii_utf8(v@);
        }
        if let Some(s) = r {
            lemma_str_chars(s);
        }
    }
    r
}

} // verus!
