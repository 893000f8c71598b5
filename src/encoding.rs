use vstd::prelude::*;

verus! {

/// The lowercase hexadecimal digit for a value below sixteen.
pub open spec fn hex_digit(v: int) -> char {
    if v == 0 { '0' } else if v == 1 { '1' } else if v == 2 { '2' } else if v == 3 { '3' }
    else if v == 4 { '4' } else if v == 5 { '5' } else if v == 6 { '6' } else if v == 7 { '7' }
    else if v == 8 { '8' } else if v == 9 { '9' } else if v == 10 { 'a' } else if v == 11 { 'b' }
    else if v == 12 { 'c' } else if v == 13 { 'd' } else if v == 14 { 'e' } else { 'f' }
}

/// Whether `c` is one of `0-9` or `a-f`.
pub open spec fn is_lower_hex_char(c: char) -> bool {
    exists|v: int| 0 <= v < 16 && hex_digit(v) == c
}

/// The value of a hexadecimal digit, either case.
pub open spec fn hex_value(c: char) -> int {
    if c == '0' { 0 } else if c == '1' { 1 } else if c == '2' { 2 } else if c == '3' { 3 }
    else if c == '4' { 4 } else if c == '5' { 5 } else if c == '6' { 6 } else if c == '7' { 7 }
    else if c == '8' { 8 } else if c == '9' { 9 } else if c == 'a' || c == 'A' { 10 }
    else if c == 'b' || c == 'B' { 11 } else if c == 'c' || c == 'C' { 12 }
    else if c == 'd' || c == 'D' { 13 } else if c == 'e' || c == 'E' { 14 } else { 15 }
}

/// Two lowercase digits per byte, high nibble first.
pub open spec fn hex_of(bytes: Seq<u8>) -> Seq<char> {
    Seq::new(
        (2 * bytes.len()) as nat,
        |i: int|
            if i % 2 == 0 {
                hex_digit(bytes[i / 2] as int / 16)
            } else {
                hex_digit(bytes[i / 2] as int % 16)
            },
    )
}

/// Reads back the bytes from a string of hexadecimal digit pairs.
pub open spec fn bytes_of_hex(text: Seq<char>) -> Seq<u8> {
    Seq::new(
        text.len() / 2,
        |i: int| (hex_value(text[2 * i]) * 16 + hex_value(text[2 * i + 1])) as u8,
    )
}

/// What `bs58::decode(..).into_vec()` yields for a text: `None` where the
/// text holds a character outside the Bitcoin alphabet.
pub uninterp spec fn base58_decoded(text: Seq<char>) -> Option<Seq<u8>>;

/// Relies on `hex::encode`: each byte becomes two characters of
/// `0123456789abcdef`, the high nibble first.
#[verifier::external_body]
pub(crate) fn to_hex(bytes: &[u8]) -> (r: String)
    ensures
        r@ == hex_of(bytes@),
{
    hex::encode(bytes)
}

/// Relies on `bs58::decode(..).into_vec()` with the default Bitcoin alphabet;
/// its error becomes `None`.
#[verifier::external_body]
pub(crate) fn decode_base58(text: &str) -> (r: Option<Vec<u8>>)
    ensures
        match r {
            Some(v) => base58_decoded(text@) == Some(v@),
            None => base58_decoded(text@).is_none(),
        },
{
    bs58::decode(text).into_vec().ok()
}

proof fn lemma_hex_digit_value(v: int)
    requires
        0 <= v < 16,
    ensures
        hex_value(hex_digit(v)) == v,
        is_lower_hex_char(hex_digit(v)),
{
}

/// Every hexadecimal rendering has two lowercase digits per byte, and
/// reading it back gives the bytes that were rendered.
pub proof fn lemma_hex_round_trip(bytes: Seq<u8>)
    ensures
        hex_of(bytes).len() == 2 * bytes.len(),
        forall|i: int| 0 <= i < hex_of(bytes).len() ==> is_lower_hex_char(#[trigger] hex_of(bytes)[i]),
        bytes_of_hex(hex_of(bytes)) == bytes,
{
    let h = hex_of(bytes);
    assert forall|i: int| 0 <= i < h.len() implies is_lower_hex_char(#[trigger] h[i]) by {
        let b = bytes[i / 2] as int;
        lemma_hex_digit_value(b / 16);
        lemma_hex_digit_value(b % 16);
    }
    let d = bytes_of_hex(h);
    assert forall|j: int| 0 <= j < bytes.len() implies #[trigger] d[j] == bytes[j] by {
        let b = bytes[j] as int;
        assert((2 * j) / 2 == j && (2 * j) % 2 == 0);
        assert((2 * j + 1) / 2 == j && (2 * j + 1) % 2 == 1);
        lemma_hex_digit_value(b / 16);
        lemma_hex_digit_value(b % 16);
        assert(b / 16 * 16 + b % 16 == b);
    }
    assert(d =~= bytes);
}

/// Distinct byte strings never share a hexadecimal rendering.
pub proof fn lemma_hex_injective(a: Seq<u8>, b: Seq<u8>)
    requires
        a != b,
    ensures
        hex_of(a) != hex_of(b),
{
    lemma_hex_round_trip(a);
    lemma_hex_round_trip(b);
}

} // verus!
