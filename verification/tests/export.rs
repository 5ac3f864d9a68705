use otp_export::cli_args::{ExportArgs, ExportFileFormats, SecretFormat, TokenTypes};
use otp_export::commands::{export_tokens, get_export_key_value};
use otp_export::payload::{Algorithm, DigitCount, MigrationPayload, OtpParameters, OtpType};

fn record(name: &str, secret: &[u8], otp_type: OtpType) -> OtpParameters {
    OtpParameters {
        secret: secret.to_vec(),
        name: name.to_string(),
        issuer: "issuer".to_string(),
        algorithm: Algorithm::Sha1,
        digits: DigitCount::Six,
        otp_type,
        counter: 3,
    }
}

fn payload(records: Vec<OtpParameters>) -> MigrationPayload {
    MigrationPayload {
        otp_parameters: records,
        version: 1,
        batch_size: 1,
        batch_index: 0,
        batch_id: 0,
    }
}

fn args(json: bool, text: bool, sf: SecretFormat, tt: TokenTypes, pretty: bool) -> ExportArgs {
    ExportArgs {
        file_format: ExportFileFormats { json, text },
        output_file: "-".to_string(),
        secret_format: sf,
        token_types: tt,
        pretty_json: pretty,
    }
}

#[test]
fn test_export_text_base32() {
    let p = payload(vec![
        record("alpha", b"one", OtpType::Totp),
        record("beta", b"two", OtpType::Totp),
    ]);
    let a = args(false, true, SecretFormat::Base32, TokenTypes::All, false);
    assert_eq!(
        export_tokens(&p, &a),
        Ok("alpha:N5XGK===\nbeta:OR3W6===\n".to_string())
    );
}

#[test]
fn test_export_text_filters_by_token_type() {
    let p = payload(vec![
        record("alpha", b"one", OtpType::Totp),
        record("beta", b"two", OtpType::Hotp),
    ]);
    let a = args(false, true, SecretFormat::Base32, TokenTypes::Hotp, false);
    assert_eq!(export_tokens(&p, &a), Ok("beta:OR3W6===\n".to_string()));
}

#[test]
fn test_export_hotp_filter_on_totp_only_payload_is_empty_not_an_error() {
    let p = payload(vec![
        record("alpha", b"one", OtpType::Totp),
        record("beta", b"two", OtpType::Totp),
    ]);
    let text = args(false, true, SecretFormat::Base32, TokenTypes::Hotp, false);
    assert_eq!(export_tokens(&p, &text), Ok("".to_string()));
    let json = args(true, false, SecretFormat::Base32, TokenTypes::Hotp, false);
    assert_eq!(export_tokens(&p, &json), Ok("{}\n".to_string()));
}

#[test]
fn test_export_json_compact() {
    let p = payload(vec![
        record("beta", b"two", OtpType::Totp),
        record("alpha", b"one", OtpType::Totp),
    ]);
    let a = args(true, false, SecretFormat::Base32, TokenTypes::All, false);
    // The JSON object orders its keys, independent of record order.
    assert_eq!(
        export_tokens(&p, &a),
        Ok("{\"alpha\":\"N5XGK===\",\"beta\":\"OR3W6===\"}\n".to_string())
    );
}

#[test]
fn test_export_json_pretty() {
    let p = payload(vec![record("alpha", b"one", OtpType::Totp)]);
    let a = args(true, false, SecretFormat::Base32, TokenTypes::All, true);
    assert_eq!(
        export_tokens(&p, &a),
        Ok("{\n  \"alpha\": \"N5XGK===\"\n}\n".to_string())
    );
}

#[test]
fn test_export_json_duplicate_names_last_wins() {
    let p = payload(vec![
        record("dup", b"one", OtpType::Totp),
        record("dup", b"two", OtpType::Totp),
    ]);
    let a = args(true, false, SecretFormat::Base32, TokenTypes::All, false);
    assert_eq!(
        export_tokens(&p, &a),
        Ok("{\"dup\":\"OR3W6===\"}\n".to_string())
    );
}

#[test]
fn test_export_otp_url_secret_format_with_base32_fallback() {
    let p = payload(vec![
        record("alpha", b"one", OtpType::Totp),
        record("beta", b"two", OtpType::Hotp),
    ]);
    let a = args(false, true, SecretFormat::OtpUrl, TokenTypes::All, false);
    assert_eq!(
        export_tokens(&p, &a),
        Ok(
            "alpha:otpauth://totp/alpha?issuer=issuer&secret=N5XGK===&digits=6&algorithm=SHA1\n\
             beta:OR3W6===\n"
                .to_string()
        )
    );
}

#[test]
fn test_get_export_key_value() {
    let a = args(false, true, SecretFormat::Base32, TokenTypes::All, false);
    let (k, v) = get_export_key_value(&a, &record("alpha", b"one", OtpType::Totp));
    assert_eq!(k, "alpha");
    assert_eq!(v, "N5XGK===");

    let a = args(false, true, SecretFormat::OtpUrl, TokenTypes::All, false);
    let (k, v) = get_export_key_value(&a, &record("alpha", b"one", OtpType::Hotp));
    assert_eq!(k, "alpha");
    assert_eq!(v, "N5XGK===");
}

#[test]
fn test_export_neither_container_yields_empty_document() {
    let p = payload(vec![record("alpha", b"one", OtpType::Totp)]);
    let a = args(false, false, SecretFormat::Base32, TokenTypes::All, false);
    assert_eq!(export_tokens(&p, &a), Ok("".to_string()));
}
