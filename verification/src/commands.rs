//! The output formatters: the info summary, the full extraction listing,
//! and the configurable export, each a read-only consumer of a decoded
//! migration payload.

use crate::cli_args::{ExportArgs, SecretFormat, TokenTypes};
use crate::codec::{base32_chars, base32_encode_fits, pct_encode, percent_encode, secret_base32};
use crate::decimal::{dec_str, dec_str_signed, i32_to_string, i64_to_string, u64_to_string};
use crate::json::{json_compact, json_entries, json_pretty, JsonObject};
use crate::payload::{
    Algorithm, DigitCount, MigrationPayload, MigrationPayloadView, OtpParameters,
    OtpParametersView, OtpType,
};
use vstd::prelude::*;
use vstd::utf8::encode_utf8;

verus! {

/// The `digits` query parameter of a provisioning URL; omitted entirely
/// when the digit count is unspecified.
pub open spec fn spec_digits_query(d: DigitCount) -> Seq<char> {
    match d {
        DigitCount::Unspecified => Seq::empty(),
        DigitCount::Six => "&digits=6"@,
        DigitCount::Eight => "&digits=8"@,
    }
}

/// The `algorithm` query parameter of a provisioning URL; omitted entirely
/// when the algorithm is unspecified.
pub open spec fn spec_algorithm_query(a: Algorithm) -> Seq<char> {
    match a {
        Algorithm::Unspecified => Seq::empty(),
        Algorithm::Sha1 => "&algorithm=SHA1"@,
        Algorithm::Sha256 => "&algorithm=SHA256"@,
        Algorithm::Sha512 => "&algorithm=SHA512"@,
        Algorithm::Md5 => "&algorithm=MD5"@,
    }
}

/// The provisioning URL of a record: representable only for TOTP records,
/// with the name path segment first, then `issuer`, `secret`, and the
/// optional `digits` and `algorithm` query parameters, in that order.
pub open spec fn spec_otp_url(p: OtpParametersView) -> Option<Seq<char>> {
    if p.otp_type is Totp {
        Some(
            "otpauth://totp/"@ + pct_encode(encode_utf8(p.name)) + "?issuer="@ + pct_encode(
                encode_utf8(p.issuer),
            ) + "&secret="@ + base32_chars(p.secret) + spec_digits_query(p.digits)
                + spec_algorithm_query(p.algorithm),
        )
    } else {
        None
    }
}

/// A record whose secret the base32 encoder accepts; on a longer one it
/// would panic while sizing its output.
pub open spec fn secret_fits(p: OtpParametersView) -> bool {
    base32_encode_fits(p.secret)
}

/// Every record's secret is one the base32 encoder accepts.
pub open spec fn secrets_fit(params: Seq<OtpParametersView>) -> bool {
    forall|i: int| 0 <= i < params.len() ==> secret_fits(#[trigger] params[i])
}

/// Law: a provisioning URL is representable exactly for TOTP records.
pub proof fn lemma_otp_url_defined_iff_totp(p: OtpParametersView)
    ensures
        spec_otp_url(p) is Some <==> p.otp_type is Totp,
{
}

impl OtpParameters {
    /// Reconstructs the standard provisioning URL of a TOTP record, or
    /// `None` where the record is not a TOTP record.
    pub fn otp_url(&self) -> (r: Option<String>)
        requires
            secret_fits(self@),
        ensures
            r matches Some(u) ==> spec_otp_url(self@) == Some(u@),
            r is None ==> spec_otp_url(self@) is None,
    {
        if !(self.otp_type == OtpType::Totp) {
            return None;
        }
        let mut url = String::new();
        url.append("otpauth://totp/");
        let encoded_name = percent_encode(self.name.as_str());
        url.append(encoded_name.as_str());
        url.append("?issuer=");
        let encoded_issuer = percent_encode(self.issuer.as_str());
        url.append(encoded_issuer.as_str());
        url.append("&secret=");
        let secret = secret_base32(&self.secret);
        url.append(secret.as_str());
        match self.digits {
            DigitCount::Unspecified => {},
            DigitCount::Six => url.append("&digits=6"),
            DigitCount::Eight => url.append("&digits=8"),
        }
        match self.algorithm {
            Algorithm::Unspecified => {},
            Algorithm::Sha1 => url.append("&algorithm=SHA1"),
            Algorithm::Sha256 => url.append("&algorithm=SHA256"),
            Algorithm::Sha512 => url.append("&algorithm=SHA512"),
            Algorithm::Md5 => url.append("&algorithm=MD5"),
        }
        proof {
            assert(spec_otp_url(self@) matches Some(u) && url@ =~= u);
        }
        Some(url)
    }
}

/// The fixed head of the info summary: payload metadata and the account
/// count.
pub open spec fn spec_info_header(p: MigrationPayloadView) -> Seq<char> {
    "Migration payload:\n"@ + "    Version: "@ + dec_str_signed(p.version as int) + "\n"@
        + "    Batch size: "@ + dec_str_signed(p.batch_size as int) + "\n"@ + "    Batch index: "@
        + dec_str_signed(p.batch_index as int) + "\n"@ + "    Batch ID: "@ + dec_str_signed(
        p.batch_id as int,
    ) + "\n"@ + "    Contained accounts ("@ + dec_str(p.otp_parameters.len()) + "):\n"@
}

/// The account-name lines of the info summary, in record order.
pub open spec fn spec_info_names(params: Seq<OtpParametersView>) -> Seq<char>
    decreases params.len(),
{
    if params.len() == 0 {
        Seq::empty()
    } else {
        spec_info_names(params.drop_last()) + "    "@ + params.last().name + "\n"@
    }
}

/// The whole info summary.
pub open spec fn spec_info_text(p: MigrationPayloadView) -> Seq<char> {
    spec_info_header(p) + spec_info_names(p.otp_parameters)
}

/// The info summary: payload metadata and the ordered account names.
pub fn info_text(payload: &MigrationPayload) -> (r: String)
    ensures
        r@ == spec_info_text(payload@),
{
    let mut out = String::new();
    out.append("Migration payload:\n");
    out.append("    Version: ");
    let version = i32_to_string(payload.version);
    out.append(version.as_str());
    out.append("\n");
    out.append("    Batch size: ");
    let batch_size = i32_to_string(payload.batch_size);
    out.append(batch_size.as_str());
    out.append("\n");
    out.append("    Batch index: ");
    let batch_index = i32_to_string(payload.batch_index);
    out.append(batch_index.as_str());
    out.append("\n");
    out.append("    Batch ID: ");
    let batch_id = i64_to_string(payload.batch_id);
    out.append(batch_id.as_str());
    out.append("\n");
    out.append("    Contained accounts (");
    let count = u64_to_string(payload.otp_parameters.len() as u64);
    out.append(count.as_str());
    out.append("):\n");
    proof {
        assert(out@ =~= spec_info_header(payload@));
    }
    let mut idx: usize = 0;
    while idx < payload.otp_parameters.len()
        invariant
            idx <= payload@.otp_parameters.len(),
            out@ == spec_info_header(payload@) + spec_info_names(
                payload@.otp_parameters.take(idx as int),
            ),
        decreases payload@.otp_parameters.len() - idx,
    {
        let ghost pre = payload@.otp_parameters.take(idx as int);
        out.append("    ");
        out.append(payload.otp_parameters[idx].name.as_str());
        out.append("\n");
        proof {
            let post = payload@.otp_parameters.take(idx as int + 1);
            assert(post.drop_last() =~= pre);
            assert(post.last() == payload@.otp_parameters[idx as int]);
            assert(out@ =~= spec_info_header(payload@) + spec_info_names(post));
        }
        idx = idx + 1;
    }
    proof {
        assert(payload@.otp_parameters.take(payload@.otp_parameters.len() as int)
            =~= payload@.otp_parameters);
    }
    out
}

/// The digits line of an extraction block; omitted when not applicable.
pub open spec fn spec_digits_line(d: DigitCount) -> Seq<char> {
    match d {
        DigitCount::Unspecified => Seq::empty(),
        DigitCount::Six => "    Digits: 6\n"@,
        DigitCount::Eight => "    Digits: 8\n"@,
    }
}

/// The counter line of an extraction block; present only for HOTP records.
pub open spec fn spec_counter_line(p: OtpParametersView) -> Seq<char> {
    if p.otp_type is Hotp {
        "    Counter: "@ + dec_str_signed(p.counter as int) + "\n"@
    } else {
        Seq::empty()
    }
}

/// The provisioning URL line of an extraction block; present only where the
/// URL is representable.
pub open spec fn spec_url_line(p: OtpParametersView) -> Seq<char> {
    match spec_otp_url(p) {
        Some(u) => "    OTP URL: "@ + u + "\n"@,
        None => Seq::empty(),
    }
}

/// One record's extraction block.
pub open spec fn spec_extract_block(p: OtpParametersView) -> Seq<char> {
    p.name + ":\n"@ + "    Issuer: "@ + p.issuer + "\n"@ + "    Algorithm: "@
        + p.algorithm.spec_str_name() + "\n"@ + "    Type: "@ + p.otp_type.spec_str_name() + "\n"@
        + spec_digits_line(p.digits) + "    Secret (Base32): "@ + base32_chars(p.secret) + "\n"@
        + spec_counter_line(p) + spec_url_line(p) + "\n"@
}

/// The whole extraction listing, in record order.
pub open spec fn spec_extract_text(params: Seq<OtpParametersView>) -> Seq<char>
    decreases params.len(),
{
    if params.len() == 0 {
        Seq::empty()
    } else {
        spec_extract_text(params.drop_last()) + spec_extract_block(params.last())
    }
}

/// One record's extraction block.
fn extract_block(param: &OtpParameters) -> (r: String)
    requires
        secret_fits(param@),
    ensures
        r@ == spec_extract_block(param@),
{
    let mut out = String::new();
    out.append(param.name.as_str());
    out.append(":\n");
    out.append("    Issuer: ");
    out.append(param.issuer.as_str());
    out.append("\n");
    out.append("    Algorithm: ");
    out.append(param.algorithm.as_str_name());
    out.append("\n");
    out.append("    Type: ");
    out.append(param.otp_type.as_str_name());
    out.append("\n");
    match param.digits {
        DigitCount::Unspecified => {},
        DigitCount::Six => out.append("    Digits: 6\n"),
        DigitCount::Eight => out.append("    Digits: 8\n"),
    }
    out.append("    Secret (Base32): ");
    let secret = secret_base32(&param.secret);
    out.append(secret.as_str());
    out.append("\n");
    if param.otp_type == OtpType::Hotp {
        out.append("    Counter: ");
        let counter = i64_to_string(param.counter);
        out.append(counter.as_str());
        out.append("\n");
    }
    match param.otp_url() {
        Some(url) => {
            out.append("    OTP URL: ");
            out.append(url.as_str());
            out.append("\n");
        },
        None => {},
    }
    out.append("\n");
    proof {
        assert(out@ =~= spec_extract_block(param@));
    }
    out
}

/// The full extraction listing: every field of every record, with the
/// secret re-encoded in base32 and the provisioning URL where representable.
pub fn extract_tokens_text(payload: &MigrationPayload) -> (r: String)
    requires
        secrets_fit(payload@.otp_parameters),
    ensures
        r@ == spec_extract_text(payload@.otp_parameters),
{
    let mut out = String::new();
    let mut idx: usize = 0;
    while idx < payload.otp_parameters.len()
        invariant
            idx <= payload@.otp_parameters.len(),
            secrets_fit(payload@.otp_parameters),
            out@ == spec_extract_text(payload@.otp_parameters.take(idx as int)),
        decreases payload@.otp_parameters.len() - idx,
    {
        let ghost pre = payload@.otp_parameters.take(idx as int);
        let param = &payload.otp_parameters[idx];
        proof {
            assert(secret_fits(payload@.otp_parameters[idx as int]));
        }
        let block = extract_block(param);
        out.append(block.as_str());
        proof {
            let post = payload@.otp_parameters.take(idx as int + 1);
            assert(post.drop_last() =~= pre);
            assert(post.last() == payload@.otp_parameters[idx as int]);
            assert(out@ =~= spec_extract_text(post));
        }
        idx = idx + 1;
    }
    proof {
        assert(payload@.otp_parameters.take(payload@.otp_parameters.len() as int)
            =~= payload@.otp_parameters);
    }
    out
}

/// Whether a record passes the token-type filter.
pub open spec fn spec_type_matches(tt: TokenTypes, p: OtpParametersView) -> bool {
    match tt {
        TokenTypes::Totp => p.otp_type is Totp,
        TokenTypes::Hotp => p.otp_type is Hotp,
        TokenTypes::All => true,
    }
}

/// The records that pass the token-type filter, in their original order.
pub open spec fn spec_filtered(params: Seq<OtpParametersView>, tt: TokenTypes) -> Seq<
    OtpParametersView,
>
    decreases params.len(),
{
    if params.len() == 0 {
        Seq::empty()
    } else {
        spec_filtered(params.drop_last(), tt) + (if spec_type_matches(tt, params.last()) {
            seq![params.last()]
        } else {
            Seq::empty()
        })
    }
}

/// The export value of a record: the provisioning URL where that was asked
/// for and is representable, the base32 secret otherwise.
pub open spec fn spec_export_value(sf: SecretFormat, p: OtpParametersView) -> Seq<char> {
    match (sf, spec_otp_url(p)) {
        (SecretFormat::OtpUrl, Some(u)) => u,
        _ => base32_chars(p.secret),
    }
}

/// The line-oriented export document: one `name:value` line per record.
pub open spec fn spec_text_doc(params: Seq<OtpParametersView>, sf: SecretFormat) -> Seq<char>
    decreases params.len(),
{
    if params.len() == 0 {
        Seq::empty()
    } else {
        spec_text_doc(params.drop_last(), sf) + params.last().name + ":"@ + spec_export_value(
            sf,
            params.last(),
        ) + "\n"@
    }
}

/// The JSON export object: names map to values, a later record silently
/// overwriting an earlier one of the same name.
pub open spec fn spec_json_map(params: Seq<OtpParametersView>, sf: SecretFormat) -> Map<
    Seq<char>,
    Seq<char>,
>
    decreases params.len(),
{
    if params.len() == 0 {
        Map::empty()
    } else {
        spec_json_map(params.drop_last(), sf).insert(
            params.last().name,
            spec_export_value(sf, params.last()),
        )
    }
}

/// Law: the JSON export object is keyed by record name, and under each name
/// stands the export value of the last record bearing that name: a later
/// record silently overwrites an earlier one.
pub proof fn lemma_json_map_name_keyed(params: Seq<OtpParametersView>, sf: SecretFormat, i: int)
    requires
        0 <= i < params.len(),
        forall|j: int| i < j < params.len() ==> params[j].name != params[i].name,
    ensures
        spec_json_map(params, sf).dom().contains(params[i].name),
        spec_json_map(params, sf)[params[i].name] == spec_export_value(sf, params[i]),
    decreases params.len(),
{
    if i < params.len() - 1 {
        assert(forall|j: int|
            i < j < params.drop_last().len() ==> params.drop_last()[j].name
                != params.drop_last()[i].name);
        lemma_json_map_name_keyed(params.drop_last(), sf, i);
        assert(params.last().name != params[i].name);
    }
}

/// The JSON export document: the serialized object and a final newline.
pub open spec fn spec_json_doc(params: Seq<OtpParametersView>, sf: SecretFormat, pretty: bool) -> Seq<
    char,
> {
    (if pretty {
        json_pretty(spec_json_map(params, sf))
    } else {
        json_compact(spec_json_map(params, sf))
    }) + "\n"@
}

/// The key and value a record is exported under.
pub fn get_export_key_value(args: &ExportArgs, param: &OtpParameters) -> (kv: (String, String))
    requires
        secret_fits(param@),
    ensures
        kv.0@ == param@.name,
        kv.1@ == spec_export_value(args.secret_format, param@),
{
    let key = param.name.clone();
    let value = match (args.secret_format, param.otp_url()) {
        (SecretFormat::OtpUrl, Some(url)) => url,
        _ => secret_base32(&param.secret),
    };
    (key, value)
}

fn matches_filter(tt: TokenTypes, param: &OtpParameters) -> (r: bool)
    ensures
        r == spec_type_matches(tt, param@),
{
    match tt {
        TokenTypes::Totp => param.otp_type == OtpType::Totp,
        TokenTypes::Hotp => param.otp_type == OtpType::Hotp,
        TokenTypes::All => true,
    }
}

/// Why building an export document failed: the JSON serializer's diagnostic.
#[derive(Clone, Debug, PartialEq, Eq)]
pub enum ExportTokensError {
    Json(String),
}

/// Builds the export document: filters the records by token type, then
/// renders them as `name:value` lines or as a JSON object, the record order
/// preserved. With neither container chosen the document is empty.
pub fn export_tokens(payload: &MigrationPayload, args: &ExportArgs) -> (r: Result<
    String,
    ExportTokensError,
>)
    requires
        secrets_fit(payload@.otp_parameters),
    ensures
        r is Err ==> !args.file_format.text && args.file_format.json,
        args.file_format.text ==> (r matches Ok(doc) && doc@ == spec_text_doc(
            spec_filtered(payload@.otp_parameters, args.token_types),
            args.secret_format,
        )),
        (!args.file_format.text && args.file_format.json) ==> (r matches Ok(doc) ==> doc@
            == spec_json_doc(
            spec_filtered(payload@.otp_parameters, args.token_types),
            args.secret_format,
            args.pretty_json,
        )),
        (!args.file_format.text && !args.file_format.json) ==> (r matches Ok(doc) && doc@
            == Seq::<char>::empty()),
{
    let ghost params = payload@.otp_parameters;
    let tt = args.token_types;
    if args.file_format.text {
        let mut out = String::new();
        let mut idx: usize = 0;
        while idx < payload.otp_parameters.len()
            invariant
                idx <= params.len(),
                params == payload@.otp_parameters,
                secrets_fit(params),
                tt == args.token_types,
                out@ == spec_text_doc(
                    spec_filtered(params.take(idx as int), tt),
                    args.secret_format,
                ),
            decreases params.len() - idx,
        {
            let ghost pre = spec_filtered(params.take(idx as int), tt);
            let param = &payload.otp_parameters[idx];
            proof {
                assert(secret_fits(params[idx as int]));
            }
            if matches_filter(tt, param) {
                let kv = get_export_key_value(args, param);
                out.append(kv.0.as_str());
                out.append(":");
                out.append(kv.1.as_str());
                out.append("\n");
            }
            proof {
                let post_params = params.take(idx as int + 1);
                assert(post_params.drop_last() =~= params.take(idx as int));
                assert(post_params.last() == params[idx as int]);
                let post = spec_filtered(post_params, tt);
                if spec_type_matches(tt, params[idx as int]) {
                    assert(post =~= pre + seq![params[idx as int]]);
                    assert(post.drop_last() =~= pre);
                    assert(out@ =~= spec_text_doc(post, args.secret_format));
                } else {
                    assert(post =~= pre);
                    assert(out@ =~= spec_text_doc(post, args.secret_format));
                }
            }
            idx = idx + 1;
        }
        proof {
            assert(params.take(params.len() as int) =~= params);
        }
        Ok(out)
    } else if args.file_format.json {
        let mut obj = JsonObject::new();
        let mut idx: usize = 0;
        while idx < payload.otp_parameters.len()
            invariant
                idx <= params.len(),
                params == payload@.otp_parameters,
                secrets_fit(params),
                tt == args.token_types,
                json_entries(obj) == spec_json_map(
                    spec_filtered(params.take(idx as int), tt),
                    args.secret_format,
                ),
            decreases params.len() - idx,
        {
            let ghost pre = spec_filtered(params.take(idx as int), tt);
            let param = &payload.otp_parameters[idx];
            proof {
                assert(secret_fits(params[idx as int]));
            }
            if matches_filter(tt, param) {
                let kv = get_export_key_value(args, param);
                obj.insert(kv.0, kv.1);
            }
            proof {
                let post_params = params.take(idx as int + 1);
                assert(post_params.drop_last() =~= params.take(idx as int));
                assert(post_params.last() == params[idx as int]);
                let post = spec_filtered(post_params, tt);
                if spec_type_matches(tt, params[idx as int]) {
                    assert(post =~= pre + seq![params[idx as int]]);
                    assert(post.drop_last() =~= pre);
                } else {
                    assert(post =~= pre);
                }
                assert(json_entries(obj) == spec_json_map(post, args.secret_format));
            }
            idx = idx + 1;
        }
        proof {
            assert(params.take(params.len() as int) =~= params);
        }
        let serialized = if args.pretty_json {
            obj.to_pretty_string()
        } else {
            obj.to_compact_string()
        };
        match serialized {
            Ok(mut doc) => {
                doc.append("\n");
                Ok(doc)
            },
            Err(message) => Err(ExportTokensError::Json(message)),
        }
    } else {
        Ok(String::new())
    }
}

/// Law: a token-type filter that no record passes yields an empty export
/// container rather than an error: the filtered record sequence is empty,
/// so the text document is empty and the JSON object holds no entries.
pub proof fn lemma_empty_filter_empty_export(
    params: Seq<OtpParametersView>,
    tt: TokenTypes,
    sf: SecretFormat,
)
    requires
        forall|i: int| 0 <= i < params.len() ==> !spec_type_matches(tt, #[trigger] params[i]),
    ensures
        spec_filtered(params, tt) == Seq::<OtpParametersView>::empty(),
        spec_text_doc(spec_filtered(params, tt), sf) == Seq::<char>::empty(),
        spec_json_map(spec_filtered(params, tt), sf) == Map::<Seq<char>, Seq<char>>::empty(),
    decreases params.len(),
{
    if params.len() > 0 {
        assert(forall|i: int|
            0 <= i < params.drop_last().len() ==> !spec_type_matches(
                tt,
                #[trigger] params.drop_last()[i],
            ));
        lemma_empty_filter_empty_export(params.drop_last(), tt, sf);
        assert(!spec_type_matches(tt, params.last()));
        assert(spec_filtered(params, tt) =~= Seq::<OtpParametersView>::empty());
    }
}

/// Law: exporting with the HOTP-only filter from a payload that holds only
/// TOTP records yields an empty output container, not an error.
pub proof fn lemma_hotp_filter_on_totp_records(params: Seq<OtpParametersView>, sf: SecretFormat)
    requires
        forall|i: int| 0 <= i < params.len() ==> (#[trigger] params[i]).otp_type is Totp,
    ensures
        spec_text_doc(spec_filtered(params, TokenTypes::Hotp), sf) == Seq::<char>::empty(),
        spec_json_map(spec_filtered(params, TokenTypes::Hotp), sf) == Map::<
            Seq<char>,
            Seq<char>,
        >::empty(),
{
    lemma_empty_filter_empty_export(params, TokenTypes::Hotp, sf);
}

} // verus!
