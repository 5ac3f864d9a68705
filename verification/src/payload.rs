//! The credential record model: a decoded migration payload and its
//! per-credential parameter records, with their derived projections.

use vstd::prelude::*;

verus! {

/// Hash algorithm of a one-time-password credential. Values outside the
/// known set decode to `Unspecified` so that newer exports are not rejected.
#[derive(Clone, Copy, Debug, PartialEq, Eq, Structural)]
pub enum Algorithm {
    Unspecified,
    Sha1,
    Sha256,
    Sha512,
    Md5,
}

/// Kind of one-time password: counter based (HOTP) or time based (TOTP).
#[derive(Clone, Copy, Debug, PartialEq, Eq, Structural)]
pub enum OtpType {
    Unspecified,
    Hotp,
    Totp,
}

/// Number of digits of the generated codes.
#[derive(Clone, Copy, Debug, PartialEq, Eq, Structural)]
pub enum DigitCount {
    Unspecified,
    Six,
    Eight,
}

/// One credential record of a migration payload.
#[derive(Clone, Debug, PartialEq)]
pub struct OtpParameters {
    pub secret: Vec<u8>,
    pub name: String,
    pub issuer: String,
    pub algorithm: Algorithm,
    pub digits: DigitCount,
    pub otp_type: OtpType,
    pub counter: i64,
}

/// Mathematical model of an `OtpParameters` record.
pub struct OtpParametersView {
    pub secret: Seq<u8>,
    pub name: Seq<char>,
    pub issuer: Seq<char>,
    pub algorithm: Algorithm,
    pub digits: DigitCount,
    pub otp_type: OtpType,
    pub counter: i64,
}

impl View for OtpParameters {
    type V = OtpParametersView;

    open spec fn view(&self) -> OtpParametersView {
        OtpParametersView {
            secret: self.secret@,
            name: self.name@,
            issuer: self.issuer@,
            algorithm: self.algorithm,
            digits: self.digits,
            otp_type: self.otp_type,
            counter: self.counter,
        }
    }
}

/// A decoded export batch: payload metadata and the ordered credential records.
#[derive(Clone, Debug, PartialEq)]
pub struct MigrationPayload {
    pub otp_parameters: Vec<OtpParameters>,
    pub version: i32,
    pub batch_size: i32,
    pub batch_index: i32,
    pub batch_id: i64,
}

/// Mathematical model of a `MigrationPayload`.
pub struct MigrationPayloadView {
    pub otp_parameters: Seq<OtpParametersView>,
    pub version: i32,
    pub batch_size: i32,
    pub batch_index: i32,
    pub batch_id: i64,
}

impl View for MigrationPayload {
    type V = MigrationPayloadView;

    open spec fn view(&self) -> MigrationPayloadView {
        MigrationPayloadView {
            otp_parameters: self.otp_parameters@.map_values(|p: OtpParameters| p@),
            version: self.version,
            batch_size: self.batch_size,
            batch_index: self.batch_index,
            batch_id: self.batch_id,
        }
    }
}

/// Numeric digit count of a record: absent exactly for `Unspecified`.
pub open spec fn spec_digits_numeric(d: DigitCount) -> Option<u8> {
    match d {
        DigitCount::Unspecified => None,
        DigitCount::Six => Some(6u8),
        DigitCount::Eight => Some(8u8),
    }
}

impl OtpParameters {
    /// Maps the digit-count variant to its numeric value, or `None` when the
    /// count is unspecified.
    pub fn digits_numeric(&self) -> (r: Option<u8>)
        ensures
            r == spec_digits_numeric(self.digits),
    {
        match self.digits {
            DigitCount::Unspecified => None,
            DigitCount::Six => Some(6),
            DigitCount::Eight => Some(8),
        }
    }
}

/// Law: the numeric digit count is always 6 or 8 when present, and it is
/// absent exactly when the digit count is unspecified.
pub proof fn lemma_digits_numeric_range(d: DigitCount)
    ensures
        spec_digits_numeric(d) matches Some(n) ==> (n == 6 || n == 8),
        spec_digits_numeric(d) is None <==> d is Unspecified,
{
}

impl Algorithm {
    /// Display name of the algorithm variant, as the wire schema names it.
    pub fn as_str_name(&self) -> (r: &'static str)
        ensures
            r@ == self.spec_str_name(),
    {
        match self {
            Algorithm::Unspecified => "ALGORITHM_UNSPECIFIED",
            Algorithm::Sha1 => "ALGORITHM_SHA1",
            Algorithm::Sha256 => "ALGORITHM_SHA256",
            Algorithm::Sha512 => "ALGORITHM_SHA512",
            Algorithm::Md5 => "ALGORITHM_MD5",
        }
    }

    pub open spec fn spec_str_name(&self) -> Seq<char> {
        match self {
            Algorithm::Unspecified => "ALGORITHM_UNSPECIFIED"@,
            Algorithm::Sha1 => "ALGORITHM_SHA1"@,
            Algorithm::Sha256 => "ALGORITHM_SHA256"@,
            Algorithm::Sha512 => "ALGORITHM_SHA512"@,
            Algorithm::Md5 => "ALGORITHM_MD5"@,
        }
    }
}

impl OtpType {
    /// Display name of the token-type variant, as the wire schema names it.
    pub fn as_str_name(&self) -> (r: &'static str)
        ensures
            r@ == self.spec_str_name(),
    {
        match self {
            OtpType::Unspecified => "OTP_TYPE_UNSPECIFIED",
            OtpType::Hotp => "OTP_TYPE_HOTP",
            OtpType::Totp => "OTP_TYPE_TOTP",
        }
    }

    pub open spec fn spec_str_name(&self) -> Seq<char> {
        match self {
            OtpType::Unspecified => "OTP_TYPE_UNSPECIFIED"@,
            OtpType::Hotp => "OTP_TYPE_HOTP"@,
            OtpType::Totp => "OTP_TYPE_TOTP"@,
        }
    }
}

} // verus!
