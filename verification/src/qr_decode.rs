//! Symbol selection, text decoding, and the migration URL parser: the
//! layered pipeline from raw QR symbol payloads to a decoded migration
//! payload, each stage failing independently.

use crate::codec::{
    base64_decode, base64_decoded, bytes_to_string, decode_input_fits, lemma_encode_utf8_len,
    lemma_pct_decode_len, pct_decode, percent_decode, Base64Error,
};
use crate::payload::{MigrationPayload, MigrationPayloadView};
use crate::wire::{spec_decode_payload, WireError};
use vstd::prelude::*;
use vstd::string::{StrSliceExecFns, StringSliceAdditionalSpecFns};
use vstd::utf8::{decode_utf8, encode_utf8, valid_utf8};

verus! {

/// Why no text could be taken from the scanned picture.
#[derive(Clone, Copy, Debug, PartialEq, Eq, Structural)]
pub enum DecodingError {
    /// The picture holds no identifiable QR symbol.
    NoQRCodeFound,
    /// The picture holds more than one QR symbol, an ambiguity that is
    /// rejected rather than guessed at.
    MultipleQRCodesFound,
    /// The one identified symbol could not be error-corrected to a payload.
    DecodingFailed,
    /// The symbol's payload is not valid UTF-8 text.
    InvalidUtf8,
}

/// What each QR symbol of a pixel grid yields: `None` where identification
/// failed, `Some(None)` where a symbol was seen but could not be decoded,
/// and `Some(Some(bytes))` for an error-corrected payload.
pub uninterp spec fn qr_symbols(width: nat, height: nat, pixels: Seq<u8>) -> Seq<
    Option<Option<Seq<u8>>>,
>;

/// The decode outcomes of the symbols that were identified, in order.
pub open spec fn identified(symbols: Seq<Option<Option<Seq<u8>>>>) -> Seq<Option<Seq<u8>>>
    decreases symbols.len(),
{
    if symbols.len() == 0 {
        Seq::empty()
    } else {
        (match symbols[0] {
            Some(c) => seq![c],
            None => Seq::empty(),
        }) + identified(symbols.skip(1))
    }
}

/// The single text a set of symbol outcomes yields: exactly one symbol must
/// be identified, it must decode, and its payload must be UTF-8 text.
pub open spec fn spec_select(symbols: Seq<Option<Option<Seq<u8>>>>) -> Result<
    Seq<char>,
    DecodingError,
> {
    let codes = identified(symbols);
    if codes.len() == 0 {
        Err(DecodingError::NoQRCodeFound)
    } else if codes.len() > 1 {
        Err(DecodingError::MultipleQRCodesFound)
    } else {
        match codes[0] {
            None => Err(DecodingError::DecodingFailed),
            Some(payload) => if valid_utf8(payload) {
                Ok(decode_utf8(payload))
            } else {
                Err(DecodingError::InvalidUtf8)
            },
        }
    }
}

/// Law: with no identified symbol, selection fails with `NoQRCodeFound`;
/// with two or more, it fails with `MultipleQRCodesFound`.
pub proof fn lemma_symbol_count(symbols: Seq<Option<Option<Seq<u8>>>>)
    ensures
        identified(symbols).len() == 0 ==> spec_select(symbols) == Err::<Seq<char>, DecodingError>(
            DecodingError::NoQRCodeFound,
        ),
        identified(symbols).len() >= 2 ==> spec_select(symbols) == Err::<Seq<char>, DecodingError>(
            DecodingError::MultipleQRCodesFound,
        ),
{
}

/// Relies on quircs::Quirc::identify and quircs::Code::decode: locating the
/// QR symbols of a grayscale pixel grid and error-correcting each into its
/// raw byte payload; identifying and decoding a symbol can each fail.
#[verifier::external_body]
fn extract_symbols(width: usize, height: usize, pixels: &Vec<u8>) -> (r: Vec<
    Option<Option<Vec<u8>>>,
>)
    requires
        pixels@.len() == width * height,
    ensures
        r.deep_view() == qr_symbols(width as nat, height as nat, pixels@),
{
    let mut decoder = quircs::Quirc::default();
    decoder
        .identify(width, height, pixels)
        .map(|code| match code {
            Ok(c) => match c.decode() {
                Ok(d) => Some(Some(d.payload)),
                Err(_) => Some(None),
            },
            Err(_) => None,
        })
        .collect()
}

/// Selects the single identified symbol and decodes its payload as text.
pub fn select_symbol(symbols: Vec<Option<Option<Vec<u8>>>>) -> (r: Result<String, DecodingError>)
    ensures
        r matches Ok(t) ==> spec_select(symbols.deep_view()) == Ok::<Seq<char>, DecodingError>(t@),
        r matches Err(e) ==> spec_select(symbols.deep_view()) == Err::<Seq<char>, DecodingError>(e),
{
    let ghost orig = symbols.deep_view();
    let mut rest = symbols;
    let mut first: Option<Option<Vec<u8>>> = None;
    let mut count: usize = 0;
    let ghost mut collected: Seq<Option<Seq<u8>>> = Seq::empty();
    proof {
        assert(identified(orig) =~= collected + identified(rest.deep_view()));
    }
    while rest.len() > 0
        invariant
            count <= 2,
            identified(orig) == collected + identified(rest.deep_view()),
            count == 0 ==> first is None && collected.len() == 0,
            count == 1 ==> collected.len() == 1 && (first matches Some(c) && collected[0]
                == c.deep_view()),
            count == 2 ==> collected.len() >= 2,
        decreases rest.len(),
    {
        let ghost pre = rest.deep_view();
        let head = rest.remove(0);
        proof {
            assert(rest.deep_view() =~= pre.skip(1));
            assert(head.deep_view() == pre[0]);
        }
        match head {
            Some(c) => {
                proof {
                    collected = collected + seq![c.deep_view()];
                }
                if count == 0 {
                    first = Some(c);
                    count = 1;
                } else if count == 1 {
                    count = 2;
                }
            },
            None => {},
        }
        proof {
            assert(identified(orig) =~= collected + identified(rest.deep_view()));
        }
    }
    proof {
        assert(identified(rest.deep_view()) =~= Seq::<Option<Seq<u8>>>::empty());
        assert(identified(orig) =~= collected);
    }
    if count == 0 {
        Err(DecodingError::NoQRCodeFound)
    } else if count > 1 {
        Err(DecodingError::MultipleQRCodesFound)
    } else {
        match first {
            None => Err(DecodingError::DecodingFailed),  // unreachable: count == 1
            Some(code) => {
                proof {
                    assert(identified(orig)[0] == code.deep_view());
                }
                match code {
                    None => Err(DecodingError::DecodingFailed),
                    Some(payload) => {
                        proof {
                            assert(payload.deep_view() =~= payload@);
                            assert(identified(orig)[0] == Some(payload@));
                        }
                        match bytes_to_string(payload) {
                            Some(t) => Ok(t),
                            None => Err(DecodingError::InvalidUtf8),
                        }
                    },
                }
            },
        }
    }
}

/// Turns a grayscale pixel grid into the text of its single QR symbol.
pub fn decode_to_string(width: usize, height: usize, pixels: &Vec<u8>) -> (r: Result<
    String,
    DecodingError,
>)
    requires
        pixels@.len() == width * height,
    ensures
        r matches Ok(t) ==> spec_select(qr_symbols(width as nat, height as nat, pixels@)) == Ok::<
            Seq<char>,
            DecodingError,
        >(t@),
        r matches Err(e) ==> spec_select(qr_symbols(width as nat, height as nat, pixels@)) == Err::<
            Seq<char>,
            DecodingError,
        >(e),
{
    let symbols = extract_symbols(width, height, pixels);
    select_symbol(symbols)
}

/// Why migration URL parsing failed.
#[derive(Clone, Copy, Debug, PartialEq, Eq, Structural)]
pub enum ParsingError {
    /// The text does not start with the migration URL prefix.
    InvalidPrefix,
    /// The percent-encoded data unescapes to bytes that are not text.
    InvalidUtf8,
    /// The data segment is not valid padded base64.
    InvalidBase64(Base64Error),
    /// The decoded bytes do not follow the payload schema.
    ProtobufDecodingFailed(WireError),
}

/// The scheme-and-path prefix every migration URL starts with.
pub open spec fn spec_prefix() -> Seq<char> {
    "otpauth-migration://offline?data="@
}

/// Outcome of parsing a migration URL: the decoded payload, or which of the
/// four chained stages failed.
pub enum ParseOutcome {
    Parsed(MigrationPayloadView),
    BadPrefix,
    BadText,
    BadBase64,
    BadSchema(WireError),
}

/// The staged parse of a migration URL: prefix check, percent-decoding,
/// base64 decoding, then schema decoding, each short-circuiting on failure.
pub open spec fn spec_parse(s: Seq<char>) -> ParseOutcome {
    if !(s.len() >= spec_prefix().len() && s.subrange(0, spec_prefix().len() as int)
        == spec_prefix()) {
        ParseOutcome::BadPrefix
    } else {
        let unescaped = pct_decode(encode_utf8(s.skip(spec_prefix().len() as int)));
        if !valid_utf8(unescaped) {
            ParseOutcome::BadText
        } else {
            match base64_decoded(encode_utf8(decode_utf8(unescaped))) {
                None => ParseOutcome::BadBase64,
                Some(bytes) => match spec_decode_payload(bytes) {
                    Ok(p) => ParseOutcome::Parsed(p),
                    Err(e) => ParseOutcome::BadSchema(e),
                },
            }
        }
    }
}

/// Whether `data` starts with `prefix`, by characters.
fn has_prefix(data: &str, prefix: &str) -> (r: bool)
    ensures
        r == (data@.len() >= prefix@.len() && data@.subrange(0, prefix@.len() as int) == prefix@),
{
    let n = data.unicode_len();
    let plen = prefix.unicode_len();
    if n < plen {
        return false;
    }
    let mut i: usize = 0;
    while i < plen
        invariant
            0 <= i <= plen,
            plen == prefix@.len(),
            n == data@.len(),
            plen <= n,
            forall|k: int| 0 <= k < i ==> data@[k] == prefix@[k],
        decreases plen - i,
    {
        if data.get_char(i) != prefix.get_char(i) {
            proof {
                assert(data@.subrange(0, plen as int)[i as int] != prefix@[i as int]);
            }
            return false;
        }
        i = i + 1;
    }
    proof {
        assert(data@.subrange(0, plen as int) =~= prefix@);
    }
    true
}

/// Parses a migration URL into its payload: checks the fixed prefix,
/// percent-decodes the remainder, decodes it as base64, and decodes the
/// bytes against the payload schema.
pub fn parse_qr_payload(data: &str) -> (r: Result<MigrationPayload, ParsingError>)
    requires
        data@.len() <= usize::MAX / 64,
    ensures
        r matches Ok(p) ==> spec_parse(data@) == ParseOutcome::Parsed(p@),
        r == Err::<MigrationPayload, ParsingError>(ParsingError::InvalidPrefix) <==> spec_parse(
            data@,
        ) is BadPrefix,
        r == Err::<MigrationPayload, ParsingError>(ParsingError::InvalidUtf8) <==> spec_parse(
            data@,
        ) is BadText,
        (r matches Err(e) && e is InvalidBase64) <==> spec_parse(data@) is BadBase64,
        (r matches Err(e) && e is ProtobufDecodingFailed) <==> spec_parse(data@) is BadSchema,
        r matches Err(e) ==> (e matches ParsingError::ProtobufDecodingFailed(w) ==> spec_parse(
            data@,
        ) == ParseOutcome::BadSchema(w)),
{
    let prefix: &str = "otpauth-migration://offline?data=";
    if !has_prefix(data, prefix) {
        return Err(ParsingError::InvalidPrefix);
    }
    let n = data.unicode_len();
    let plen = prefix.unicode_len();
    let rest = data.substring_char(plen, n);
    proof {
        assert(rest@ =~= data@.skip(spec_prefix().len() as int));
    }
    let unescaped = match percent_decode(rest) {
        None => {
            return Err(ParsingError::InvalidUtf8);
        },
        Some(t) => t,
    };
    proof {
        // The base64 decoder panics on over-long inputs; the unescaped text
        // is no longer than four bytes per character of the parsed string.
        lemma_encode_utf8_len(rest@);
        lemma_pct_decode_len(rest.spec_bytes());
        vstd::utf8::decode_utf8_encode_utf8(pct_decode(rest.spec_bytes()));
        assert(encode_utf8(unescaped@).len() <= usize::MAX / 8);
    }
    let binary = match base64_decode(unescaped.as_str()) {
        Err(e) => {
            return Err(ParsingError::InvalidBase64(e));
        },
        Ok(v) => v,
    };
    match crate::wire::decode_migration_payload(&binary) {
        Err(e) => Err(ParsingError::ProtobufDecodingFailed(e)),
        Ok(p) => Ok(p),
    }
}

} // verus!
