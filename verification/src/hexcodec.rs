//! The hexadecimal codec used at the library's boundary: encoding a hash
//! for display and decoding literal byte buffers.

use vstd::prelude::*;

verus! {

/// Whether a character is a hexadecimal digit, of either case.
pub open spec fn is_hex_digit(c: char) -> bool {
    ||| ('0' as u32) <= (c as u32) && (c as u32) <= ('9' as u32)
    ||| ('a' as u32) <= (c as u32) && (c as u32) <= ('f' as u32)
    ||| ('A' as u32) <= (c as u32) && (c as u32) <= ('F' as u32)
}

/// The value of a hexadecimal digit.
pub open spec fn hex_val(c: char) -> u8
    recommends
        is_hex_digit(c),
{
    if ('0' as u32) <= (c as u32) && (c as u32) <= ('9' as u32) {
        ((c as u32) - ('0' as u32)) as u8
    } else if ('a' as u32) <= (c as u32) && (c as u32) <= ('f' as u32) {
        ((c as u32) - ('a' as u32) + 10) as u8
    } else {
        ((c as u32) - ('A' as u32) + 10) as u8
    }
}

/// The lowercase digit of a value below sixteen.
pub open spec fn hex_digit_char(n: u8) -> char
    recommends
        n < 16,
{
    if n == 0 {
        '0'
    } else if n == 1 {
        '1'
    } else if n == 2 {
        '2'
    } else if n == 3 {
        '3'
    } else if n == 4 {
        '4'
    } else if n == 5 {
        '5'
    } else if n == 6 {
        '6'
    } else if n == 7 {
        '7'
    } else if n == 8 {
        '8'
    } else if n == 9 {
        '9'
    } else if n == 10 {
        'a'
    } else if n == 11 {
        'b'
    } else if n == 12 {
        'c'
    } else if n == 13 {
        'd'
    } else if n == 14 {
        'e'
    } else {
        'f'
    }
}

/// The lowercase hexadecimal rendering of a byte sequence: two digits per
/// byte, high nibble first, with no prefix.
pub open spec fn spec_hex_encode(data: Seq<u8>) -> Seq<char> {
    Seq::new(
        data.len() * 2,
        |i: int|
            if i % 2 == 0 {
                hex_digit_char(data[i / 2] / 16)
            } else {
                hex_digit_char(data[i / 2] % 16)
            },
    )
}

/// Drops one leading `0x` or `0X`, when present.
pub open spec fn strip_hex_prefix(s: Seq<char>) -> Seq<char> {
    if s.len() >= 2 && s[0] == '0' && (s[1] == 'x' || s[1] == 'X') {
        s.skip(2)
    } else {
        s
    }
}

/// Whether every character of a sequence is a hexadecimal digit.
pub open spec fn all_hex_digits(s: Seq<char>) -> bool {
    forall|i: int| 0 <= i < s.len() ==> is_hex_digit(#[trigger] s[i])
}

/// The bytes spelled by a sequence of hexadecimal digit pairs.
pub open spec fn hex_pairs_to_bytes(s: Seq<char>) -> Seq<u8>
    recommends
        s.len() % 2 == 0,
        all_hex_digits(s),
{
    Seq::new(s.len() / 2, |i: int| (hex_val(s[2 * i]) * 16 + hex_val(s[2 * i + 1])) as u8)
}

/// What hexadecimal decoding yields: nothing when the input's length is
/// odd or when, after one optional `0x`/`0X` prefix, any character is no
/// hexadecimal digit; otherwise the bytes the digit pairs spell.
pub open spec fn spec_hex_decode(s: Seq<char>) -> Option<Seq<u8>> {
    if s.len() % 2 != 0 {
        None
    } else {
        let body = strip_hex_prefix(s);
        if all_hex_digits(body) {
            Some(hex_pairs_to_bytes(body))
        } else {
            None
        }
    }
}

/// Relies on alloy_core's hex::encode: each input byte becomes two
/// lowercase hexadecimal digits, in order, with no prefix.
#[verifier::external_body]
fn hex_encode_raw(data: &[u8]) -> (r: String)
    ensures
        r@ == spec_hex_encode(data@),
{
    alloy_core::hex::encode(data)
}

/// Relies on alloy_core's hex::decode: it rejects an odd-length input,
/// strips one optional `0x`/`0X` prefix, and decodes the remaining
/// characters as pairs of hexadecimal digits, failing on any other
/// character.
#[verifier::external_body]
fn hex_decode_raw(s: &str) -> (r: Option<Vec<u8>>)
    ensures
        match r {
            Some(v) => spec_hex_decode(s@) == Some(v@),
            None => spec_hex_decode(s@) is None,
        },
{
    alloy_core::hex::decode(s).ok()
}

/// A hexadecimal literal that could not be decoded: its length was odd,
/// or a character was no hexadecimal digit.
#[derive(Clone, Copy, Debug, PartialEq, Eq, Structural)]
pub struct DecodeError;

/// Renders a byte buffer as its lowercase hexadecimal string.
pub fn encode_hex(data: &[u8]) -> (r: String)
    ensures
        r@ == spec_hex_encode(data@),
{
    hex_encode_raw(data)
}

/// Decodes a hexadecimal literal, with one optional `0x`/`0X` prefix,
/// into the bytes it spells. Fails exactly on an odd-length input or a
/// character that is no hexadecimal digit.
pub fn decode_hex(s: &str) -> (r: Result<Vec<u8>, DecodeError>)
    ensures
        match r {
            Ok(v) => spec_hex_decode(s@) == Some(v@),
            Err(_) => spec_hex_decode(s@) is None,
        },
{
    match hex_decode_raw(s) {
        Some(v) => Ok(v),
        None => Err(DecodeError),
    }
}

/// Decoding inverts encoding: the hexadecimal rendering of any byte
/// sequence decodes back to exactly that sequence.
pub proof fn lemma_hex_round_trip(data: Seq<u8>)
    ensures
        spec_hex_decode(spec_hex_encode(data)) == Some(data),
{
    let e = spec_hex_encode(data);
    assert(e.len() == data.len() * 2);
    assert(e.len() % 2 == 0);
    assert forall|n: u8| n < 16 implies is_hex_digit(#[trigger] hex_digit_char(n)) && hex_val(
        hex_digit_char(n),
    ) == n && hex_digit_char(n) != 'x' && hex_digit_char(n) != 'X' by {
    }
    if e.len() >= 2 {
        assert(e[1] == hex_digit_char(data[0] % 16));
        assert(data[0] % 16 < 16);
        assert(!(e[1] == 'x' || e[1] == 'X'));
    }
    let body = strip_hex_prefix(e);
    assert(body == e);
    assert forall|i: int| 0 <= i < e.len() implies is_hex_digit(#[trigger] e[i]) by {
        assert(0 <= i / 2 < data.len());
        assert(data[i / 2] / 16 < 16 && data[i / 2] % 16 < 16);
    }
    let decoded = hex_pairs_to_bytes(e);
    assert forall|i: int| 0 <= i < data.len() implies decoded[i] == data[i] by {
        assert(e[2 * i] == hex_digit_char(data[i] / 16));
        assert(e[2 * i + 1] == hex_digit_char(data[i] % 16));
        assert(hex_val(e[2 * i]) == data[i] / 16);
        assert(hex_val(e[2 * i + 1]) == data[i] % 16);
        assert((data[i] / 16) * 16 + data[i] % 16 == data[i]) by {
            vstd::arithmetic::div_mod::lemma_fundamental_div_mod(data[i] as int, 16);
        }
    }
    assert(decoded =~= data);
}

} // verus!
