//! The command surface: which operation runs and how an export is shaped.

use vstd::prelude::*;

verus! {

/// How the secret of a record is represented in an export.
#[derive(Clone, Copy, Debug, PartialEq, Eq, Structural)]
pub enum SecretFormat {
    /// The base32 secret only.
    Base32,
    /// The full provisioning URL where one is representable, the base32
    /// secret otherwise.
    OtpUrl,
}

/// Which token types an export keeps.
#[derive(Clone, Copy, Debug, PartialEq, Eq, Structural)]
pub enum TokenTypes {
    Totp,
    Hotp,
    All,
}

/// Which container an export is written in: line-oriented text or JSON.
#[derive(Clone, Copy, Debug, PartialEq, Eq, Structural)]
pub struct ExportFileFormats {
    pub json: bool,
    pub text: bool,
}

/// How tokens are exported: container, destination, secret representation,
/// token-type filter, and JSON pretty-printing.
#[derive(Clone, Debug)]
pub struct ExportArgs {
    pub file_format: ExportFileFormats,
    pub output_file: String,
    pub secret_format: SecretFormat,
    pub token_types: TokenTypes,
    pub pretty_json: bool,
}

/// The operation to run on the decoded payload.
#[derive(Clone, Debug)]
pub enum Subcommand {
    /// Print metadata about the data encoded in the QR code.
    Info,
    /// Extract and print the OTP secrets.
    Extract,
    /// Export the OTP secrets to different file formats.
    Export(ExportArgs),
}

/// A full invocation: the picture to read, quiet mode, and the operation.
#[derive(Clone, Debug)]
pub struct Args {
    pub image_path: String,
    pub quiet: bool,
    pub subcommand: Subcommand,
}

} // verus!
