use otp_export::codec::Base64ErrorKind;
use otp_export::payload::{Algorithm, DigitCount, MigrationPayload, OtpParameters, OtpType};
use otp_export::qr_decode::{parse_qr_payload, select_symbol, DecodingError, ParsingError};
use otp_export::wire::{decode_migration_payload, WireError};

const TEST_QR_PAYLOAD: &str = "otpauth-migration://offline?data=CikKCkhlbGxvId6tvu8SCHRlc3R1c2VyGgtleGFtcGxlLmNvbSABKAEwAgo8CgpXb3JsZCEgICAgEhx0ZXN0LWdpdGh1Yi51c2VyQGV4YW1wbGUuY29tGgpnaXRodWIuY29tIAEoATACCjcKCldvcmxkISAgICESD2Fub3RoZXJ0ZXN0dXNlchoSc29tZWV4YW1wbGVzZXJ2aWNlIAEoATACCjIKCldvcmxkISAgICISCmZvdXJ0aHVzZXIaEnNvbWVleGFtcGxlc2VydmljZSABKAEwAhACGAEgAA%3D%3D";

fn record(secret: &[u8], name: &str, issuer: &str) -> OtpParameters {
    OtpParameters {
        secret: secret.to_vec(),
        name: name.to_string(),
        issuer: issuer.to_string(),
        algorithm: Algorithm::Sha1,
        digits: DigitCount::Six,
        otp_type: OtpType::Totp,
        counter: 0,
    }
}

fn expected_payload() -> MigrationPayload {
    MigrationPayload {
        otp_parameters: vec![
            record(b"Hello!\xde\xad\xbe\xef", "testuser", "example.com"),
            record(b"World!    ", "test-github.user@example.com", "github.com"),
            record(b"World!   !", "anothertestuser", "someexampleservice"),
            record(b"World!   \"", "fourthuser", "someexampleservice"),
        ],
        version: 2,
        batch_size: 1,
        batch_index: 0,
        batch_id: 0,
    }
}

#[test]
fn test_parse_qr_payload() {
    assert_eq!(parse_qr_payload(TEST_QR_PAYLOAD), Ok(expected_payload()));
}

#[test]
fn test_parse_qr_payload_four_records() {
    let payload = parse_qr_payload(TEST_QR_PAYLOAD).unwrap();
    assert_eq!(payload.otp_parameters.len(), 4);
}

#[test]
fn test_parse_qr_payload_invalid_prefix() {
    assert_eq!(
        parse_qr_payload("invalid prefix"),
        Err(ParsingError::InvalidPrefix)
    );
}

#[test]
fn test_parse_qr_payload_invalid_utf8() {
    assert_eq!(
        parse_qr_payload("otpauth-migration://offline?data=somepayload%00with%DE%13illegalchars"),
        Err(ParsingError::InvalidUtf8)
    );
}

#[test]
fn test_parse_qr_payload_invalid_base64() {
    let result = parse_qr_payload("otpauth-migration://offline?data=DEFINITELYN0#*($@)@_)T!BASE64");
    assert!(matches!(result, Err(ParsingError::InvalidBase64(_))));
}

#[test]
fn test_parse_qr_payload_invalid_base64_kind() {
    let result = parse_qr_payload("otpauth-migration://offline?data=####");
    match result {
        Err(ParsingError::InvalidBase64(e)) => {
            assert_eq!(e.kind, Base64ErrorKind::Symbol);
            assert_eq!(e.position, 0);
        }
        other => panic!("expected a base64 error, got {other:?}"),
    }
}

#[test]
fn test_parse_qr_payload_truncated_schema() {
    // A valid base64 segment whose bytes stop in the middle of a record.
    // 0x0a 0x05 announces a five-byte record but only one byte follows.
    let result = parse_qr_payload("otpauth-migration://offline?data=CgUK");
    assert_eq!(
        result,
        Err(ParsingError::ProtobufDecodingFailed(WireError::Truncated))
    );
}

#[test]
fn test_decode_empty_payload_is_valid() {
    // Zero credentials is a valid payload, not an error.
    let payload = decode_migration_payload(&Vec::new()).unwrap();
    assert_eq!(payload.otp_parameters.len(), 0);
    assert_eq!(payload.version, 0);
    assert_eq!(payload.batch_id, 0);
}

#[test]
fn test_decode_skips_unknown_fields() {
    // Field 9 (varint), field 10 (length-delimited), and field 11 (32-bit)
    // are unknown to the schema and stepped over; version still decodes.
    let bytes: Vec<u8> = vec![
        0x48, 0x2a, // field 9, varint 42
        0x52, 0x03, 0x61, 0x62, 0x63, // field 10, three bytes
        0x5d, 0x01, 0x02, 0x03, 0x04, // field 11, fixed 32-bit
        0x10, 0x07, // field 2, version = 7
    ];
    let payload = decode_migration_payload(&bytes).unwrap();
    assert_eq!(payload.version, 7);
    assert_eq!(payload.otp_parameters.len(), 0);
}

#[test]
fn test_decode_unknown_enum_values_become_unspecified() {
    // One record: algorithm 99, digits 57, type 200.
    let record: Vec<u8> = vec![0x20, 0x63, 0x28, 0x39, 0x30, 0xc8, 0x01];
    let mut bytes: Vec<u8> = vec![0x0a, record.len() as u8];
    bytes.extend_from_slice(&record);
    let payload = decode_migration_payload(&bytes).unwrap();
    assert_eq!(payload.otp_parameters.len(), 1);
    let p = &payload.otp_parameters[0];
    assert_eq!(p.algorithm, Algorithm::Unspecified);
    assert_eq!(p.digits, DigitCount::Unspecified);
    assert_eq!(p.otp_type, OtpType::Unspecified);
}

#[test]
fn test_decode_rejects_invalid_field_number_zero() {
    let bytes: Vec<u8> = vec![0x00, 0x00];
    assert_eq!(
        decode_migration_payload(&bytes),
        Err(WireError::InvalidTag)
    );
}

#[test]
fn test_decode_rejects_wrong_wire_type() {
    // Version (field 2) with a length-delimited wire type.
    let bytes: Vec<u8> = vec![0x12, 0x01, 0x07];
    assert_eq!(
        decode_migration_payload(&bytes),
        Err(WireError::InvalidWireType)
    );
}

#[test]
fn test_decode_rejects_unterminated_varint() {
    let bytes: Vec<u8> = vec![0x10, 0x80];
    assert_eq!(
        decode_migration_payload(&bytes),
        Err(WireError::TruncatedVarint)
    );
}

#[test]
fn test_decode_rejects_non_utf8_name() {
    // One record whose name field holds the bytes 0xde 0x13.
    let bytes: Vec<u8> = vec![0x0a, 0x04, 0x12, 0x02, 0xde, 0x13];
    assert_eq!(
        decode_migration_payload(&bytes),
        Err(WireError::InvalidString)
    );
}

#[test]
fn test_decode_negative_version() {
    // Version -1 is a ten-byte sign-extended varint.
    let bytes: Vec<u8> = vec![
        0x10, 0xff, 0xff, 0xff, 0xff, 0xff, 0xff, 0xff, 0xff, 0xff, 0x01,
    ];
    let payload = decode_migration_payload(&bytes).unwrap();
    assert_eq!(payload.version, -1);
}

#[test]
fn test_select_symbol_none_found() {
    assert_eq!(
        select_symbol(Vec::new()),
        Err(DecodingError::NoQRCodeFound)
    );
    // Symbols whose identification failed do not count.
    assert_eq!(
        select_symbol(vec![None, None]),
        Err(DecodingError::NoQRCodeFound)
    );
}

#[test]
fn test_select_symbol_multiple_found() {
    let symbols = vec![
        Some(Some(b"one".to_vec())),
        Some(Some(b"two".to_vec())),
    ];
    assert_eq!(
        select_symbol(symbols),
        Err(DecodingError::MultipleQRCodesFound)
    );
    // Two identified symbols are ambiguous even when neither decodes.
    assert_eq!(
        select_symbol(vec![Some(None), Some(None)]),
        Err(DecodingError::MultipleQRCodesFound)
    );
}

#[test]
fn test_select_symbol_decode_failure() {
    assert_eq!(
        select_symbol(vec![Some(None)]),
        Err(DecodingError::DecodingFailed)
    );
}

#[test]
fn test_select_symbol_invalid_utf8() {
    assert_eq!(
        select_symbol(vec![Some(Some(vec![0xde, 0x13]))]),
        Err(DecodingError::InvalidUtf8)
    );
}

#[test]
fn test_select_symbol_single_text() {
    let symbols = vec![None, Some(Some(b"test".to_vec())), None];
    assert_eq!(select_symbol(symbols), Ok("test".to_string()));
}
