use vstd::prelude::*;
use crate::error::{GIOError, ProtocolError};

verus! {

/// The lowercase hex digit of a value below 16.
pub open spec fn hex_digit(n: u8) -> char {
    if n < 10 {
        (n + 48) as char
    } else {
        (n + 87) as char
    }
}

/// The value of a hex digit, either case, or `None` for any other character.
pub open spec fn nibble(c: char) -> Option<u8> {
    if '0' <= c && c <= '9' {
        Some((c as u32 - 48) as u8)
    } else if 'a' <= c && c <= 'f' {
        Some((c as u32 - 87) as u8)
    } else if 'A' <= c && c <= 'F' {
        Some((c as u32 - 55) as u8)
    } else {
        None
    }
}

/// Two lowercase hex digits per byte, high nibble first.
pub open spec fn hex_body(b: Seq<u8>) -> Seq<char>
    decreases b.len(),
{
    if b.len() == 0 {
        Seq::empty()
    } else {
        seq![hex_digit(b[0] / 16), hex_digit(b[0] % 16)] + hex_body(b.skip(1))
    }
}

/// The `0x`-prefixed lowercase hex text of a byte sequence.
pub open spec fn hex_prefixed(b: Seq<u8>) -> Seq<char> {
    seq!['0', 'x'] + hex_body(b)
}

/// The bytes that pairs of hex digits stand for, or `None` if the text is not such pairs.
pub open spec fn unhex_body(s: Seq<char>) -> Option<Seq<u8>>
    decreases s.len(),
{
    if s.len() == 0 {
        Some(Seq::empty())
    } else if s.len() == 1 {
        None
    } else {
        match (nibble(s[0]), nibble(s[1]), unhex_body(s.skip(2))) {
            (Some(h), Some(l), Some(rest)) => Some(seq![(h * 16 + l) as u8] + rest),
            _ => None,
        }
    }
}

/// Hex text, with an optional `0x` or `0X` prefix, read as bytes.
pub open spec fn unhex(s: Seq<char>) -> Option<Seq<u8>> {
    if s.len() >= 2 && s[0] == '0' && (s[1] == 'x' || s[1] == 'X') {
        unhex_body(s.skip(2))
    } else {
        unhex_body(s)
    }
}

#[verifier::external_type_specification]
#[verifier::external_body]
pub struct ExFromHexError(alloy_primitives::hex::FromHexError);

/// Relies on alloy_primitives::hex::encode_prefixed: `0x`, then two lowercase
/// hex digits for each byte, high nibble first.
#[verifier::external_body]
fn encode_prefixed(b: &Vec<u8>) -> (r: String)
    ensures
        r@ == hex_prefixed(b@),
{
    alloy_primitives::hex::encode_prefixed(b)
}

/// Relies on alloy_primitives::hex::decode: an optional `0x`/`0X` prefix is
/// stripped, and the rest decodes iff it is pairs of hex digits of either case.
#[verifier::external_body]
fn decode(s: &str) -> (r: Result<Vec<u8>, alloy_primitives::hex::FromHexError>)
    ensures
        match r {
            Ok(v) => unhex(s@) == Some(v@),
            Err(_) => unhex(s@) is None,
        },
{
    alloy_primitives::hex::decode(s)
}

/// The `0x`-prefixed lowercase hex text of `b`.
pub fn hex_encode(b: &Vec<u8>) -> (r: String)
    ensures
        r@ == hex_prefixed(b@),
{
    encode_prefixed(b)
}

/// The bytes written in hex text `s`; `InvalidHex` if `s` is not hex text.
pub fn hex_decode(s: &str) -> (r: Result<Vec<u8>, GIOError>)
    ensures
        match unhex(s@) {
            Some(b) => r is Ok && r->Ok_0@ == b,
            None => r == Err::<Vec<u8>, GIOError>(GIOError::BadResponseData(ProtocolError::InvalidHex)),
        },
{
    match decode(s) {
        Ok(v) => Ok(v),
        Err(_) => Err(GIOError::BadResponseData(ProtocolError::InvalidHex)),
    }
}

proof fn lemma_nibble_of_digit(n: u8)
    requires
        n < 16,
    ensures
        nibble(hex_digit(n)) == Some(n),
{
}

proof fn lemma_unhex_hex_body(b: Seq<u8>)
    ensures
        unhex_body(hex_body(b)) == Some(b),
    decreases b.len(),
{
    if b.len() > 0 {
        let s = hex_body(b);
        lemma_nibble_of_digit(b[0] / 16);
        lemma_nibble_of_digit(b[0] % 16);
        lemma_unhex_hex_body(b.skip(1));
        assert(s.skip(2) =~= hex_body(b.skip(1)));
        assert((b[0] / 16) * 16 + b[0] % 16 == b[0]);
        assert(seq![b[0]] + b.skip(1) =~= b);
    }
}

/// Decoding the hex text of any byte sequence gives the sequence back.
pub proof fn lemma_hex_round_trip(b: Seq<u8>)
    ensures
        unhex(hex_prefixed(b)) == Some(b),
{
    lemma_unhex_hex_body(b);
    assert(hex_prefixed(b).skip(2) =~= hex_body(b));
}

} // verus!
