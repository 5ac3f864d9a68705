//! Text codecs the decode pipeline is chained from: percent-encoding,
//! base32 and base64, and UTF-8 validation. The outside calls stand behind
//! trusted wrappers; the percent codecs are specified exactly.

use vstd::prelude::*;
use vstd::string::StringSliceAdditionalSpecFns;
use vstd::utf8::{decode_utf8, encode_utf8, is_ascii_chars, valid_utf8};

verus! {

/// Bytes that percent-encoding leaves unescaped: ASCII alphanumerics and
/// `-`, `.`, `_`, `~`.
pub open spec fn is_url_unreserved(b: u8) -> bool {
    ||| 0x30 <= b <= 0x39
    ||| 0x41 <= b <= 0x5a
    ||| 0x61 <= b <= 0x7a
    ||| b == 0x2d
    ||| b == 0x2e
    ||| b == 0x5f
    ||| b == 0x7e
}

/// Uppercase hexadecimal digit for a value below 16.
pub open spec fn upper_hex_digit(d: u8) -> char {
    if d == 0 {
        '0'
    } else if d == 1 {
        '1'
    } else if d == 2 {
        '2'
    } else if d == 3 {
        '3'
    } else if d == 4 {
        '4'
    } else if d == 5 {
        '5'
    } else if d == 6 {
        '6'
    } else if d == 7 {
        '7'
    } else if d == 8 {
        '8'
    } else if d == 9 {
        '9'
    } else if d == 10 {
        'A'
    } else if d == 11 {
        'B'
    } else if d == 12 {
        'C'
    } else if d == 13 {
        'D'
    } else if d == 14 {
        'E'
    } else {
        'F'
    }
}

/// Percent-encoding of a byte sequence: unreserved bytes stand as
/// themselves, every other byte becomes `%XX` with uppercase hex digits.
pub open spec fn pct_encode(b: Seq<u8>) -> Seq<char>
    decreases b.len(),
{
    if b.len() == 0 {
        Seq::empty()
    } else {
        let c = b[0];
        let head: Seq<char> = if is_url_unreserved(c) {
            seq![(c as u32) as char]
        } else {
            seq!['%', upper_hex_digit(c / 16), upper_hex_digit(c % 16)]
        };
        head + pct_encode(b.skip(1))
    }
}

/// Whether a byte is an ASCII hexadecimal digit, either case.
pub open spec fn is_hex_digit(b: u8) -> bool {
    ||| 0x30 <= b <= 0x39
    ||| 0x41 <= b <= 0x46
    ||| 0x61 <= b <= 0x66
}

/// Value of an ASCII hexadecimal digit.
pub open spec fn hex_digit_value(b: u8) -> u8 {
    if 0x30 <= b <= 0x39 {
        (b - 0x30) as u8
    } else if 0x41 <= b <= 0x46 {
        (b - 0x41 + 10) as u8
    } else {
        (b - 0x61 + 10) as u8
    }
}

/// Percent-decoding of a byte sequence. A `%` followed by two hex digits
/// becomes one byte; a malformed escape is kept literally, one byte at a
/// time, as the percent decoder of the pipeline treats it.
pub open spec fn pct_decode(b: Seq<u8>) -> Seq<u8>
    decreases b.len(),
{
    if b.len() == 0 {
        Seq::empty()
    } else if b[0] != 0x25 {
        seq![b[0]] + pct_decode(b.skip(1))
    } else if b.len() >= 3 && is_hex_digit(b[1]) && is_hex_digit(b[2]) {
        seq![(hex_digit_value(b[1]) * 16 + hex_digit_value(b[2])) as u8] + pct_decode(b.skip(3))
    } else if b.len() >= 3 && is_hex_digit(b[1]) {
        seq![0x25u8, b[1]] + pct_decode(b.skip(2))
    } else if b.len() >= 2 && !is_hex_digit(b[1]) {
        seq![0x25u8] + pct_decode(b.skip(1))
    } else {
        b
    }
}

/// Percent-decoding never lengthens its input.
pub proof fn lemma_pct_decode_len(b: Seq<u8>)
    ensures
        pct_decode(b).len() <= b.len(),
    decreases b.len(),
{
    if b.len() == 0 {
    } else if b[0] != 0x25 {
        lemma_pct_decode_len(b.skip(1));
    } else if b.len() >= 3 && is_hex_digit(b[1]) && is_hex_digit(b[2]) {
        lemma_pct_decode_len(b.skip(3));
    } else if b.len() >= 3 && is_hex_digit(b[1]) {
        lemma_pct_decode_len(b.skip(2));
    } else if b.len() >= 2 && !is_hex_digit(b[1]) {
        lemma_pct_decode_len(b.skip(1));
    }
}

/// A UTF-8 encoding holds at most four bytes per character.
pub proof fn lemma_encode_utf8_len(chars: Seq<char>)
    ensures
        encode_utf8(chars).len() <= 4 * chars.len(),
    decreases chars.len(),
{
    if chars.len() > 0 {
        lemma_encode_utf8_len(chars.drop_first());
    }
}

/// Inputs this long are accepted by the base32 encoder; on longer ones it
/// panics while sizing its output.
pub open spec fn base32_encode_fits(b: Seq<u8>) -> bool {
    b.len() <= usize::MAX / 512
}

/// Inputs this long are accepted by the base32 and base64 decoders; on
/// longer ones they panic while sizing their output.
pub open spec fn decode_input_fits(b: Seq<u8>) -> bool {
    b.len() <= usize::MAX / 8
}

/// RFC 4648 base32 text of a byte sequence, as the base32 encoder emits it.
pub uninterp spec fn base32_chars(b: Seq<u8>) -> Seq<char>;

/// Base64 (standard alphabet, padded) decoding of ASCII bytes: the decoded
/// bytes, or `None` where the input is not a valid encoding.
pub uninterp spec fn base64_decoded(b: Seq<u8>) -> Option<Seq<u8>>;

/// Why a base64 decode failed, mirroring the decoder's diagnostic.
#[derive(Clone, Copy, Debug, PartialEq, Eq, Structural)]
pub enum Base64ErrorKind {
    Length,
    Symbol,
    Trailing,
    Padding,
}

/// A failed base64 decode: the first failing input position and its kind.
#[derive(Clone, Copy, Debug, PartialEq, Eq, Structural)]
pub struct Base64Error {
    pub position: usize,
    pub kind: Base64ErrorKind,
}

/// Relies on urlencoding::encode: every byte except ASCII alphanumerics and
/// `-`, `.`, `_`, `~` becomes a `%XX` escape with uppercase hex digits.
#[verifier::external_body]
fn percent_encode_raw(s: &str) -> (r: String)
    ensures
        r@ == pct_encode(s.spec_bytes()),
{
    urlencoding::encode(s).into_owned()
}

/// Percent-encodes a string for use in a URL.
pub fn percent_encode(s: &str) -> (r: String)
    ensures
        r@ == pct_encode(s.spec_bytes()),
{
    percent_encode_raw(s)
}

/// Relies on urlencoding::decode: reverses `%XX` escapes byte-wise and then
/// validates the unescaped bytes as UTF-8, failing exactly when they are not.
#[verifier::external_body]
fn percent_decode_raw(s: &str) -> (r: Option<String>)
    ensures
        r matches Some(t) ==> valid_utf8(pct_decode(s.spec_bytes())) && t@ == decode_utf8(
            pct_decode(s.spec_bytes()),
        ),
        r is None ==> !valid_utf8(pct_decode(s.spec_bytes())),
{
    match urlencoding::decode(s) {
        Ok(t) => Some(t.into_owned()),
        Err(_) => None,
    }
}

/// Percent-decodes a string, failing when the unescaped bytes are not text.
pub fn percent_decode(s: &str) -> (r: Option<String>)
    ensures
        r matches Some(t) ==> valid_utf8(pct_decode(s.spec_bytes())) && t@ == decode_utf8(
            pct_decode(s.spec_bytes()),
        ),
        r is None ==> !valid_utf8(pct_decode(s.spec_bytes())),
{
    percent_decode_raw(s)
}

/// Relies on data_encoding::BASE32.encode: RFC 4648 base32 text of the
/// bytes, eight ASCII characters for every five bytes begun.
#[verifier::external_body]
fn base32_encode_raw(b: &[u8]) -> (r: String)
    requires
        base32_encode_fits(b@),
    ensures
        r@ == base32_chars(b@),
        r@.len() == ((b@.len() + 4) / 5) * 8,
        is_ascii_chars(r@),
{
    data_encoding::BASE32.encode(b)
}

/// Base32 text of a raw secret, for display and export.
pub fn secret_base32(secret: &Vec<u8>) -> (r: String)
    requires
        base32_encode_fits(secret@),
    ensures
        r@ == base32_chars(secret@),
        r@.len() == ((secret@.len() + 4) / 5) * 8,
        is_ascii_chars(r@),
{
    base32_encode_raw(secret.as_slice())
}

/// Relies on data_encoding::BASE32.decode, whose documentation states that
/// the codec is correct: encoding followed by decoding gives the initial data.
#[verifier::external_body]
fn base32_decode_raw(s: &str) -> (r: Option<Vec<u8>>)
    requires
        decode_input_fits(s.spec_bytes()),
    ensures
        r matches Some(v) ==> forall|b: Seq<u8>| s@ == #[trigger] base32_chars(b) ==> v@ == b,
        r is None ==> forall|b: Seq<u8>| s@ != #[trigger] base32_chars(b),
{
    data_encoding::BASE32.decode(s.as_bytes()).ok()
}

/// Recovers a raw secret from its base32 text.
pub fn secret_from_base32(encoded: &str) -> (r: Option<Vec<u8>>)
    requires
        decode_input_fits(encoded.spec_bytes()),
    ensures
        r matches Some(v) ==> forall|b: Seq<u8>| encoded@ == #[trigger] base32_chars(b) ==> v@ == b,
        r is None ==> forall|b: Seq<u8>| encoded@ != #[trigger] base32_chars(b),
{
    base32_decode_raw(encoded)
}

/// Law: base32-encoding the raw secret bytes and decoding the text again
/// yields the original bytes.
pub fn base32_round_trip(secret: &Vec<u8>) -> (r: Vec<u8>)
    requires
        base32_encode_fits(secret@),
    ensures
        r@ == secret@,
{
    let encoded = secret_base32(secret);
    proof {
        vstd::utf8::is_ascii_chars_encode_utf8(encoded@);
        assert(encode_utf8(encoded@).len() == encoded@.len());
    }
    let decoded = secret_from_base32(encoded.as_str());
    assert(encoded@ == base32_chars(secret@));
    match decoded {
        Some(v) => v,
        None => {
            proof {
                assert(false);
            }
            Vec::new()
        },
    }
}

/// Relies on data_encoding::BASE64.decode: standard alphabet with padding;
/// the error carries the first failing input position and its kind.
#[verifier::external_body]
fn base64_decode_raw(s: &str) -> (r: Result<Vec<u8>, Base64Error>)
    requires
        decode_input_fits(s.spec_bytes()),
    ensures
        r matches Ok(v) ==> base64_decoded(s.spec_bytes()) == Some(v@),
        r is Err ==> base64_decoded(s.spec_bytes()) is None,
{
    match data_encoding::BASE64.decode(s.as_bytes()) {
        Ok(v) => Ok(v),
        Err(e) => Err(
            Base64Error {
                position: e.position,
                kind: match e.kind {
                    data_encoding::DecodeKind::Length => Base64ErrorKind::Length,
                    data_encoding::DecodeKind::Symbol => Base64ErrorKind::Symbol,
                    data_encoding::DecodeKind::Trailing => Base64ErrorKind::Trailing,
                    data_encoding::DecodeKind::Padding => Base64ErrorKind::Padding,
                },
            },
        ),
    }
}

/// Decodes padded standard-alphabet base64 text into bytes.
pub fn base64_decode(s: &str) -> (r: Result<Vec<u8>, Base64Error>)
    requires
        decode_input_fits(s.spec_bytes()),
    ensures
        r matches Ok(v) ==> base64_decoded(s.spec_bytes()) == Some(v@),
        r is Err ==> base64_decoded(s.spec_bytes()) is None,
{
    base64_decode_raw(s)
}

/// Relies on String::from_utf8: accepts exactly valid UTF-8 and yields its
/// decoded characters.
#[verifier::external_body]
pub(crate) fn bytes_to_string(v: Vec<u8>) -> (r: Option<String>)
    ensures
        r matches Some(s) ==> valid_utf8(v@) && s@ == decode_utf8(v@),
        r is None ==> !valid_utf8(v@),
{
    String::from_utf8(v).ok()
}

} // verus!
