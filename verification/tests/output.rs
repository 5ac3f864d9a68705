use otp_export::commands::{extract_tokens_text, info_text};
use otp_export::payload::{Algorithm, DigitCount, MigrationPayload, OtpParameters, OtpType};

fn totp_record() -> OtpParameters {
    OtpParameters {
        secret: b"Hello!\xde\xad\xbe\xef".to_vec(),
        name: "testuser".to_string(),
        issuer: "example.com".to_string(),
        algorithm: Algorithm::Sha1,
        digits: DigitCount::Six,
        otp_type: OtpType::Totp,
        counter: 0,
    }
}

fn hotp_record() -> OtpParameters {
    OtpParameters {
        secret: b"12345".to_vec(),
        name: "hotpuser".to_string(),
        issuer: "svc".to_string(),
        algorithm: Algorithm::Sha256,
        digits: DigitCount::Eight,
        otp_type: OtpType::Hotp,
        counter: 42,
    }
}

fn payload(records: Vec<OtpParameters>) -> MigrationPayload {
    MigrationPayload {
        otp_parameters: records,
        version: 2,
        batch_size: 1,
        batch_index: 0,
        batch_id: -7,
    }
}

#[test]
fn test_digits_numeric() {
    let mut p = totp_record();
    p.digits = DigitCount::Unspecified;
    assert_eq!(p.digits_numeric(), None);
    p.digits = DigitCount::Six;
    assert_eq!(p.digits_numeric(), Some(6));
    p.digits = DigitCount::Eight;
    assert_eq!(p.digits_numeric(), Some(8));
}

#[test]
fn test_otp_url_totp() {
    assert_eq!(
        totp_record().otp_url(),
        Some(
            "otpauth://totp/testuser?issuer=example.com&secret=JBSWY3DPEHPK3PXP&digits=6&algorithm=SHA1"
                .to_string()
        )
    );
}

#[test]
fn test_otp_url_percent_encodes_name_and_issuer() {
    let mut p = totp_record();
    p.name = "My User!".to_string();
    p.issuer = "Ex Ample".to_string();
    assert_eq!(
        p.otp_url(),
        Some(
            "otpauth://totp/My%20User%21?issuer=Ex%20Ample&secret=JBSWY3DPEHPK3PXP&digits=6&algorithm=SHA1"
                .to_string()
        )
    );
}

#[test]
fn test_otp_url_omits_unspecified_parameters() {
    let mut p = totp_record();
    p.digits = DigitCount::Unspecified;
    p.algorithm = Algorithm::Unspecified;
    assert_eq!(
        p.otp_url(),
        Some("otpauth://totp/testuser?issuer=example.com&secret=JBSWY3DPEHPK3PXP".to_string())
    );
}

#[test]
fn test_otp_url_only_for_totp() {
    let mut p = totp_record();
    p.otp_type = OtpType::Hotp;
    assert_eq!(p.otp_url(), None);
    p.otp_type = OtpType::Unspecified;
    assert_eq!(p.otp_url(), None);
    p.otp_type = OtpType::Totp;
    assert!(p.otp_url().is_some());
}

#[test]
fn test_info_text() {
    let expected = "Migration payload:\n\
                    \x20   Version: 2\n\
                    \x20   Batch size: 1\n\
                    \x20   Batch index: 0\n\
                    \x20   Batch ID: -7\n\
                    \x20   Contained accounts (2):\n\
                    \x20   testuser\n\
                    \x20   hotpuser\n";
    assert_eq!(
        info_text(&payload(vec![totp_record(), hotp_record()])),
        expected
    );
}

#[test]
fn test_info_text_empty_payload() {
    let expected = "Migration payload:\n\
                    \x20   Version: 2\n\
                    \x20   Batch size: 1\n\
                    \x20   Batch index: 0\n\
                    \x20   Batch ID: -7\n\
                    \x20   Contained accounts (0):\n";
    assert_eq!(info_text(&payload(vec![])), expected);
}

#[test]
fn test_extract_tokens_text_totp() {
    let expected = "testuser:\n\
                    \x20   Issuer: example.com\n\
                    \x20   Algorithm: ALGORITHM_SHA1\n\
                    \x20   Type: OTP_TYPE_TOTP\n\
                    \x20   Digits: 6\n\
                    \x20   Secret (Base32): JBSWY3DPEHPK3PXP\n\
                    \x20   OTP URL: otpauth://totp/testuser?issuer=example.com&secret=JBSWY3DPEHPK3PXP&digits=6&algorithm=SHA1\n\
                    \n";
    assert_eq!(extract_tokens_text(&payload(vec![totp_record()])), expected);
}

#[test]
fn test_extract_tokens_text_hotp_has_counter_and_no_url() {
    let expected = "hotpuser:\n\
                    \x20   Issuer: svc\n\
                    \x20   Algorithm: ALGORITHM_SHA256\n\
                    \x20   Type: OTP_TYPE_HOTP\n\
                    \x20   Digits: 8\n\
                    \x20   Secret (Base32): GEZDGNBV\n\
                    \x20   Counter: 42\n\
                    \n";
    assert_eq!(extract_tokens_text(&payload(vec![hotp_record()])), expected);
}

#[test]
fn test_as_str_name() {
    assert_eq!(Algorithm::Unspecified.as_str_name(), "ALGORITHM_UNSPECIFIED");
    assert_eq!(Algorithm::Md5.as_str_name(), "ALGORITHM_MD5");
    assert_eq!(OtpType::Totp.as_str_name(), "OTP_TYPE_TOTP");
    assert_eq!(OtpType::Unspecified.as_str_name(), "OTP_TYPE_UNSPECIFIED");
}
