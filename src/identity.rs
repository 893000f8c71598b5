use vstd::prelude::*;

use crate::encoding::{bytes_of_hex, hex_of, is_lower_hex_char, lemma_hex_injective, lemma_hex_round_trip, to_hex};

verus! {

/// The account identifier of a raw public key: its bytes in lowercase hexadecimal.
pub fn canonical_id(raw_key: &[u8]) -> (r: String)
    ensures
        r@ == hex_of(raw_key@),
{
    to_hex(raw_key)
}

/// The label shown for an account: the address exactly as the client wrote it.
pub fn display_label(address: &str) -> (r: String)
    ensures
        r@ == address@,
{
    address.to_owned()
}

/// The identifier of a 32-byte key has 64 characters, each one of `0-9a-f`,
/// and reading it back as hexadecimal gives the key.
pub proof fn lemma_canonical_id_round_trip(raw_key: Seq<u8>)
    requires
        raw_key.len() == 32,
    ensures
        hex_of(raw_key).len() == 64,
        forall|i: int| 0 <= i < 64 ==> is_lower_hex_char(#[trigger] hex_of(raw_key)[i]),
        bytes_of_hex(hex_of(raw_key)) == raw_key,
{
    lemma_hex_round_trip(raw_key);
}

/// Two different keys never share an identifier.
pub proof fn lemma_canonical_id_injective(a: Seq<u8>, b: Seq<u8>)
    requires
        a != b,
    ensures
        hex_of(a) != hex_of(b),
{
    lemma_hex_injective(a, b);
}

} // verus!
