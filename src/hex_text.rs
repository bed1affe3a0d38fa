//! Hexadecimal text: what decoding and encoding mean, the outside calls that
//! perform them, and the errors of the library's own that decoding can give.

use vstd::prelude::*;

verus! {

/// The error that `hex` reports; its variants are read by the library.
#[verifier::external_type_specification]
pub struct ExFromHexError(hex::FromHexError);

/// Why a text is not hexadecimal.
#[derive(Debug, Clone, Copy, PartialEq, Eq, Structural)]
pub enum HexDecodeError {
    /// The byte at `index` is no hexadecimal digit; `c` is that byte.
    InvalidHexCharacter { c: char, index: usize },
    /// The text has an odd number of bytes.
    OddLength,
}

/// The value of one hexadecimal digit, in either case.
pub open spec fn hex_digit_value(c: u8) -> Option<u8> {
    if 0x30 <= c && c <= 0x39 {
        Some((c - 0x30) as u8)
    } else if 0x61 <= c && c <= 0x66 {
        Some((c - 0x61 + 10) as u8)
    } else if 0x41 <= c && c <= 0x46 {
        Some((c - 0x41 + 10) as u8)
    } else {
        None
    }
}

pub open spec fn is_hex_digit(c: u8) -> bool {
    hex_digit_value(c) is Some
}

pub open spec fn all_hex_digits(b: Seq<u8>) -> bool {
    forall|i: int| 0 <= i < b.len() ==> #[trigger] is_hex_digit(b[i])
}

/// Text that decodes: an even number of hexadecimal digits.
pub open spec fn is_hex_text(b: Seq<u8>) -> bool {
    b.len() % 2 == 0 && all_hex_digits(b)
}

/// The byte that the two digits at `2 * i` and `2 * i + 1` stand for.
pub open spec fn decoded_byte(b: Seq<u8>, i: int) -> u8 {
    (hex_digit_value(b[2 * i]).unwrap() * 16 + hex_digit_value(b[2 * i + 1]).unwrap()) as u8
}

/// The bytes that hexadecimal text stands for, two digits for each byte.
pub open spec fn hex_decoded(b: Seq<u8>) -> Seq<u8> {
    Seq::new((b.len() / 2) as nat, |i: int| decoded_byte(b, i))
}

/// The lowercase digit for a value below 16.
pub open spec fn lower_hex_digit(v: u8) -> u8 {
    if v < 10 {
        (0x30 + v) as u8
    } else {
        (0x61 + v - 10) as u8
    }
}

/// Lowercase hexadecimal text of bytes: the high digit of each byte first.
pub open spec fn hex_encoded(b: Seq<u8>) -> Seq<char> {
    Seq::new(
        2 * b.len(),
        |k: int|
            (if k % 2 == 0 {
                lower_hex_digit(b[k / 2] / 16)
            } else {
                lower_hex_digit(b[k / 2] % 16)
            }) as char,
    )
}

/// `e` is the error that decoding `b` reports: an odd length first, else the
/// first byte that is no digit.
pub open spec fn is_decode_error_of(b: Seq<u8>, e: HexDecodeError) -> bool {
    match e {
        HexDecodeError::OddLength => b.len() % 2 == 1,
        HexDecodeError::InvalidHexCharacter { c, index } => {
            &&& b.len() % 2 == 0
            &&& index < b.len()
            &&& !is_hex_digit(b[index as int])
            &&& all_hex_digits(b.take(index as int))
            &&& c as u32 == b[index as int] as u32
        },
    }
}

/// Relies on `hex::decode`: an odd length is refused first; otherwise the
/// first byte that is no digit of either case is reported with its index;
/// otherwise each pair of digits gives one byte, the high digit first.
#[verifier::external_body]
pub(crate) fn decode_hex(data: &[u8]) -> (r: Result<Vec<u8>, hex::FromHexError>)
    ensures
        match r {
            Ok(v) => is_hex_text(data@) && v@ == hex_decoded(data@),
            Err(hex::FromHexError::OddLength) => data@.len() % 2 == 1,
            Err(hex::FromHexError::InvalidHexCharacter { c, index }) => is_decode_error_of(
                data@,
                HexDecodeError::InvalidHexCharacter { c, index },
            ),
            Err(hex::FromHexError::InvalidStringLength) => false,
        },
{
    hex::decode(data)
}

/// Relies on `hex::encode`: two lowercase digits for each byte, the high
/// digit first.
#[verifier::external_body]
pub(crate) fn encode_hex(data: &[u8]) -> (r: String)
    ensures
        r@ == hex_encoded(data@),
{
    hex::encode(data)
}

/// Decodes hexadecimal text, reporting in the library's own terms why it is
/// not hexadecimal.
pub fn decode(data: &[u8]) -> (r: Result<Vec<u8>, HexDecodeError>)
    ensures
        r is Ok <==> is_hex_text(data@),
        r matches Ok(v) ==> v@ == hex_decoded(data@),
        r matches Err(e) ==> is_decode_error_of(data@, e),
{
    match decode_hex(data) {
        Ok(v) => Ok(v),
        Err(hex::FromHexError::OddLength) => Err(HexDecodeError::OddLength),
        Err(hex::FromHexError::InvalidHexCharacter { c, index }) => {
            Err(HexDecodeError::InvalidHexCharacter { c, index })
        },
        Err(hex::FromHexError::InvalidStringLength) => Err(HexDecodeError::OddLength),
    }
}

/// A byte with an uppercase ASCII letter replaced by its lowercase form.
pub open spec fn ascii_lower(c: u8) -> u8 {
    if 0x41 <= c && c <= 0x5a {
        (c + 0x20) as u8
    } else {
        c
    }
}

/// Text with its uppercase ASCII letters lowercased.
pub open spec fn lowercased(b: Seq<u8>) -> Seq<char> {
    Seq::new(b.len(), |i: int| ascii_lower(b[i]) as char)
}

proof fn lemma_digit_round_trip(c: u8)
    requires
        is_hex_digit(c),
    ensures
        hex_digit_value(c).unwrap() < 16,
        lower_hex_digit(hex_digit_value(c).unwrap()) == ascii_lower(c),
{
}

proof fn lemma_split_byte(h: u8, l: u8)
    requires
        h < 16,
        l < 16,
    ensures
        ((h * 16 + l) as u8) / 16 == h,
        ((h * 16 + l) as u8) % 16 == l,
{
    assert(((h * 16 + l) as u8) / 16 == h && ((h * 16 + l) as u8) % 16 == l) by (nonlinear_arith)
        requires
            h < 16,
            l < 16,
    ;
}

/// Encoding what hexadecimal text decodes to gives that text back, with its
/// letters lowercased.
pub proof fn lemma_encode_decode_round_trip(b: Seq<u8>)
    requires
        is_hex_text(b),
    ensures
        hex_encoded(hex_decoded(b)) == lowercased(b),
{
    let d = hex_decoded(b);
    assert forall|k: int| 0 <= k < b.len() implies #[trigger] hex_encoded(d)[k] == lowercased(b)[k] by {
        let i = k / 2;
        assert(is_hex_digit(b[2 * i]));
        assert(is_hex_digit(b[2 * i + 1]));
        lemma_digit_round_trip(b[2 * i]);
        lemma_digit_round_trip(b[2 * i + 1]);
        lemma_split_byte(hex_digit_value(b[2 * i]).unwrap(), hex_digit_value(b[2 * i + 1]).unwrap());
        assert(d[i] == decoded_byte(b, i));
    }
    assert(hex_encoded(d) =~= lowercased(b));
}

} // verus!
