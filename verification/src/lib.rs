//! Decoding of authenticator-app "export accounts" QR payloads: the layered
//! pipeline from raw QR symbol payloads through URI validation,
//! percent-decoding, base64 and binary schema decoding to structured
//! credential records, and the re-encoded output formats built from them.

pub mod cli_args;
pub mod codec;
pub mod commands;
pub mod decimal;
pub mod json;
pub mod payload;
pub mod qr_decode;
pub mod wire;
