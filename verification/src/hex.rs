//! Uppercase hexadecimal encoding of byte strings, as used for stored
//! password salts and hashes: a mathematical model of the encoding, trusted
//! bindings to the encoder the crate uses, and the round-trip law.

use vstd::prelude::*;

verus! {

/// The numeric value of an uppercase hexadecimal digit; 16 for any other
/// character.
pub open spec fn hex_val(c: char) -> u8 {
    if c == '0' {
        0
    } else if c == '1' {
        1
    } else if c == '2' {
        2
    } else if c == '3' {
        3
    } else if c == '4' {
        4
    } else if c == '5' {
        5
    } else if c == '6' {
        6
    } else if c == '7' {
        7
    } else if c == '8' {
        8
    } else if c == '9' {
        9
    } else if c == 'A' {
        10
    } else if c == 'B' {
        11
    } else if c == 'C' {
        12
    } else if c == 'D' {
        13
    } else if c == 'E' {
        14
    } else if c == 'F' {
        15
    } else {
        16
    }
}

pub open spec fn is_hex_upper_digit(c: char) -> bool {
    hex_val(c) < 16
}

/// The uppercase hexadecimal digit for a value below 16.
pub open spec fn hex_upper_char(v: u8) -> char
    recommends
        v < 16,
{
    if v == 0 {
        '0'
    } else if v == 1 {
        '1'
    } else if v == 2 {
        '2'
    } else if v == 3 {
        '3'
    } else if v == 4 {
        '4'
    } else if v == 5 {
        '5'
    } else if v == 6 {
        '6'
    } else if v == 7 {
        '7'
    } else if v == 8 {
        '8'
    } else if v == 9 {
        '9'
    } else if v == 10 {
        'A'
    } else if v == 11 {
        'B'
    } else if v == 12 {
        'C'
    } else if v == 13 {
        'D'
    } else if v == 14 {
        'E'
    } else {
        'F'
    }
}

/// The uppercase hexadecimal encoding of a byte string: two digits per byte,
/// high nibble first.
pub open spec fn hex_upper_of(bytes: Seq<u8>) -> Seq<char> {
    Seq::new(
        bytes.len() * 2,
        |i: int|
            if i % 2 == 0 {
                hex_upper_char(bytes[i / 2] / 16)
            } else {
                hex_upper_char(bytes[i / 2] % 16)
            },
    )
}

/// Whether a character string is a well-formed uppercase hexadecimal
/// encoding: even length, every character an uppercase hexadecimal digit.
pub open spec fn hex_decodable(s: Seq<char>) -> bool {
    &&& s.len() % 2 == 0
    &&& forall|i: int| 0 <= i < s.len() ==> is_hex_upper_digit(#[trigger] s[i])
}

/// The byte string a well-formed uppercase hexadecimal encoding stands for.
pub open spec fn hex_parse(s: Seq<char>) -> Seq<u8>
    recommends
        hex_decodable(s),
{
    Seq::new(
        s.len() / 2,
        |i: int| ((hex_val(s[2 * i]) as int) * 16 + (hex_val(s[2 * i + 1]) as int)) as u8,
    )
}

/// Encoding then decoding gives the bytes back: the encoding is well formed
/// and parses to what was encoded.
pub proof fn lemma_hex_round_trip(bytes: Seq<u8>)
    ensures
        hex_decodable(hex_upper_of(bytes)),
        hex_parse(hex_upper_of(bytes)) =~= bytes,
{
    let s = hex_upper_of(bytes);
    assert forall|v: u8| v < 16 implies is_hex_upper_digit(hex_upper_char(v)) && hex_val(
        hex_upper_char(v),
    ) == v by {}
    assert forall|i: int| 0 <= i < s.len() implies is_hex_upper_digit(s[i]) by {
        assert(bytes[i / 2] / 16 < 16 && bytes[i / 2] % 16 < 16);
    }
    assert forall|i: int| 0 <= i < bytes.len() implies hex_parse(s)[i] == bytes[i] by {
        let b = bytes[i];
        assert(s[2 * i] == hex_upper_char(b / 16));
        assert(s[2 * i + 1] == hex_upper_char(b % 16));
        assert((b / 16) * 16 + b % 16 == b) by (nonlinear_arith);
    }
}

/// Relies on `data_encoding::HEXUPPER.encode`: canonical RFC 4648 base16
/// with the symbols `0123456789ABCDEF`, two digits per byte, high nibble
/// first.
#[verifier::external_body]
pub(crate) fn hex_upper_encode(bytes: &Vec<u8>) -> (r: String)
    ensures
        r@ == hex_upper_of(bytes@),
{
    data_encoding::HEXUPPER.encode(bytes)
}

/// Relies on `data_encoding::HEXUPPER.decode`: strict base16 decoding, which
/// succeeds exactly on even-length strings of uppercase hexadecimal digits
/// and returns the bytes they stand for.
#[verifier::external_body]
pub(crate) fn hex_upper_decode(s: &str) -> (r: Option<Vec<u8>>)
    ensures
        r is Some <==> hex_decodable(s@),
        r matches Some(v) ==> v@ == hex_parse(s@),
{
    match data_encoding::HEXUPPER.decode(s.as_bytes()) {
        Ok(v) => Some(v),
        Err(_) => None,
    }
}

} // verus!
