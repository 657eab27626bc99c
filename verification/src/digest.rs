//! Content hashing, taken from the `blake3` crate.

use crate::text::{chars_of, join2};
use vstd::prelude::*;
use vstd::string::StringSliceAdditionalSpecFns;

verus! {

/// The BLAKE3 hash of a byte string in lower-case hexadecimal.
pub uninterp spec fn blake3_hex(bytes: Seq<u8>) -> Seq<char>;

/// Hashes bytes with `blake3::hash` and writes the hash with `Hash::to_hex`.
#[verifier::external_body]
pub(crate) fn blake3_hex_of(bytes: &[u8]) -> (hex: String)
    ensures
        hex@ == blake3_hex(bytes@),
{
    blake3::hash(bytes).to_hex().to_string()
}

/// The hash of a text: that of its UTF-8 bytes.
pub open spec fn text_hash(text: Seq<char>) -> Seq<char> {
    blake3_hex(vstd::utf8::encode_utf8(text))
}

/// The tagged hash that evidence records in place of captured bytes.
pub open spec fn tagged_hash(bytes: Seq<u8>) -> Seq<char> {
    "blake3:"@ + blake3_hex(bytes)
}

/// Hashes a text.
pub fn hash_text(input: &str) -> (hex: String)
    ensures
        hex@ == text_hash(input@),
{
    blake3_hex_of(input.as_bytes())
}

/// Hashes captured bytes for evidence.
pub fn hash_bytes(bytes: &[u8]) -> (tagged: String)
    ensures
        tagged@ == tagged_hash(bytes@),
{
    let hex = chars_of(blake3_hex_of(bytes).as_str());
    join2("blake3:", hex.as_slice())
}

} // verus!
