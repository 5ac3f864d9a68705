//! The fixed binary schema of a migration payload: a verified decoder for
//! the wire format (base-128 varints and tagged fields) into the credential
//! record model.

use crate::codec::bytes_to_string;
use crate::payload::{
    Algorithm, DigitCount, MigrationPayload, MigrationPayloadView, OtpParameters,
    OtpParametersView, OtpType,
};
use vstd::prelude::*;
use vstd::utf8::{decode_utf8, valid_utf8};

verus! {

/// Why schema decoding failed.
#[derive(Clone, Copy, Debug, PartialEq, Eq, Structural)]
pub enum WireError {
    /// A varint ran past the end of the buffer or past ten bytes.
    TruncatedVarint,
    /// A length-delimited field ran past the end of the buffer.
    Truncated,
    /// A field key with field number zero.
    InvalidTag,
    /// A wire type that is unknown, or wrong for a known field.
    InvalidWireType,
    /// A text field whose bytes are not valid UTF-8.
    InvalidString,
}

/// One step of base-128 varint accumulation: the low seven bits of byte
/// number `k` land at bit `7 * k`; bits beyond 63 are discarded.
pub open spec fn varint_from(s: Seq<u8>, i: int, k: nat, acc: u64) -> Result<(u64, int), WireError>
    decreases 10 - k,
{
    if i < 0 || i >= s.len() || k >= 10 {
        Err(WireError::TruncatedVarint)
    } else {
        let b = s[i];
        let acc2 = acc | (((b & 0x7f) as u64) << ((7 * k) as u64));
        if b < 0x80 {
            Ok((acc2, i + 1))
        } else {
            varint_from(s, i + 1, (k + 1) as nat, acc2)
        }
    }
}

/// The varint starting at `i`: its value and the index just past it.
pub open spec fn varint_at(s: Seq<u8>, i: int) -> Result<(u64, int), WireError> {
    varint_from(s, i, 0, 0)
}

/// The length-delimited field starting at `i`: its bytes and the index just
/// past it.
pub open spec fn len_delim_at(s: Seq<u8>, i: int) -> Result<(Seq<u8>, int), WireError> {
    match varint_at(s, i) {
        Err(e) => Err(e),
        Ok((len, j)) => if j + len <= s.len() {
            Ok((s.subrange(j, j + len), j + len))
        } else {
            Err(WireError::Truncated)
        },
    }
}

/// The index just past an unknown field of the given wire type at `i`.
pub open spec fn skip_at(s: Seq<u8>, i: int, wire: u64) -> Result<int, WireError> {
    if wire == 0 {
        match varint_at(s, i) {
            Err(e) => Err(e),
            Ok((v, j)) => Ok(j),
        }
    } else if wire == 1 {
        if i + 8 <= s.len() {
            Ok(i + 8)
        } else {
            Err(WireError::Truncated)
        }
    } else if wire == 2 {
        match len_delim_at(s, i) {
            Err(e) => Err(e),
            Ok((b, j)) => Ok(j),
        }
    } else if wire == 5 {
        if i + 4 <= s.len() {
            Ok(i + 4)
        } else {
            Err(WireError::Truncated)
        }
    } else {
        Err(WireError::InvalidWireType)
    }
}

/// The low 32 bits of a varint value read as a signed 32-bit integer.
pub open spec fn low_bits_i32(v: u64) -> i32 {
    let x = v % 0x1_0000_0000;
    if x >= 0x8000_0000 {
        (x - 0x1_0000_0000) as i32
    } else {
        x as i32
    }
}

/// A varint value read as a signed 64-bit integer.
pub open spec fn as_i64(v: u64) -> i64 {
    if v >= 0x8000_0000_0000_0000 {
        (v - 0x1_0000_0000_0000_0000) as i64
    } else {
        v as i64
    }
}

/// The algorithm variant a varint value stands for; unknown values are
/// `Unspecified`.
pub open spec fn algorithm_of(v: u64) -> Algorithm {
    let x = v % 0x1_0000_0000;
    if x == 1 {
        Algorithm::Sha1
    } else if x == 2 {
        Algorithm::Sha256
    } else if x == 3 {
        Algorithm::Sha512
    } else if x == 4 {
        Algorithm::Md5
    } else {
        Algorithm::Unspecified
    }
}

/// The digit-count variant a varint value stands for.
pub open spec fn digit_count_of(v: u64) -> DigitCount {
    let x = v % 0x1_0000_0000;
    if x == 1 {
        DigitCount::Six
    } else if x == 2 {
        DigitCount::Eight
    } else {
        DigitCount::Unspecified
    }
}

/// The token-type variant a varint value stands for.
pub open spec fn otp_type_of(v: u64) -> OtpType {
    let x = v % 0x1_0000_0000;
    if x == 1 {
        OtpType::Hotp
    } else if x == 2 {
        OtpType::Totp
    } else {
        OtpType::Unspecified
    }
}

/// A credential record before any of its fields were read.
pub open spec fn default_param() -> OtpParametersView {
    OtpParametersView {
        secret: Seq::empty(),
        name: Seq::empty(),
        issuer: Seq::empty(),
        algorithm: Algorithm::Unspecified,
        digits: DigitCount::Unspecified,
        otp_type: OtpType::Unspecified,
        counter: 0,
    }
}

/// A payload before any of its fields were read.
pub open spec fn default_payload() -> MigrationPayloadView {
    MigrationPayloadView {
        otp_parameters: Seq::empty(),
        version: 0,
        batch_size: 0,
        batch_index: 0,
        batch_id: 0,
    }
}

/// Folds the fields of a credential record from `i` onward into `acc`;
/// later occurrences of a field overwrite earlier ones.
pub open spec fn param_fields(s: Seq<u8>, i: int, acc: OtpParametersView) -> Result<
    OtpParametersView,
    WireError,
>
    decreases s.len() - i,
{
    if i < 0 {
        Err(WireError::Truncated)
    } else if i >= s.len() {
        Ok(acc)
    } else {
        match varint_at(s, i) {
            Err(e) => Err(e),
            Ok((tag, j)) => {
                let field: u64 = tag / 8;
                let wire: u64 = tag % 8;
                if field == 0 {
                    Err(WireError::InvalidTag)
                } else if field == 1 {
                    if wire == 2 {
                        match len_delim_at(s, j) {
                            Err(e) => Err(e),
                            Ok((bytes, j2)) => if i < j2 <= s.len() {
                                param_fields(s, j2, OtpParametersView { secret: bytes, ..acc })
                            } else {
                                Err(WireError::Truncated)
                            },
                        }
                    } else {
                        Err(WireError::InvalidWireType)
                    }
                } else if field == 2 || field == 3 {
                    if wire == 2 {
                        match len_delim_at(s, j) {
                            Err(e) => Err(e),
                            Ok((bytes, j2)) => if !valid_utf8(bytes) {
                                Err(WireError::InvalidString)
                            } else if i < j2 <= s.len() {
                                if field == 2 {
                                    param_fields(
                                        s,
                                        j2,
                                        OtpParametersView { name: decode_utf8(bytes), ..acc },
                                    )
                                } else {
                                    param_fields(
                                        s,
                                        j2,
                                        OtpParametersView { issuer: decode_utf8(bytes), ..acc },
                                    )
                                }
                            } else {
                                Err(WireError::Truncated)
                            },
                        }
                    } else {
                        Err(WireError::InvalidWireType)
                    }
                } else if field == 4 || field == 5 || field == 6 || field == 7 {
                    if wire == 0 {
                        match varint_at(s, j) {
                            Err(e) => Err(e),
                            Ok((v, j2)) => if i < j2 <= s.len() {
                                if field == 4 {
                                    param_fields(
                                        s,
                                        j2,
                                        OtpParametersView { algorithm: algorithm_of(v), ..acc },
                                    )
                                } else if field == 5 {
                                    param_fields(
                                        s,
                                        j2,
                                        OtpParametersView { digits: digit_count_of(v), ..acc },
                                    )
                                } else if field == 6 {
                                    param_fields(
                                        s,
                                        j2,
                                        OtpParametersView { otp_type: otp_type_of(v), ..acc },
                                    )
                                } else {
                                    param_fields(
                                        s,
                                        j2,
                                        OtpParametersView { counter: as_i64(v), ..acc },
                                    )
                                }
                            } else {
                                Err(WireError::Truncated)
                            },
                        }
                    } else {
                        Err(WireError::InvalidWireType)
                    }
                } else {
                    match skip_at(s, j, wire) {
                        Err(e) => Err(e),
                        Ok(j2) => if i < j2 <= s.len() {
                            param_fields(s, j2, acc)
                        } else {
                            Err(WireError::Truncated)
                        },
                    }
                }
            },
        }
    }
}

/// Folds the fields of a migration payload from `i` onward into `acc`;
/// each record field appends one credential record, in input order.
pub open spec fn payload_fields(s: Seq<u8>, i: int, acc: MigrationPayloadView) -> Result<
    MigrationPayloadView,
    WireError,
>
    decreases s.len() - i,
{
    if i < 0 {
        Err(WireError::Truncated)
    } else if i >= s.len() {
        Ok(acc)
    } else {
        match varint_at(s, i) {
            Err(e) => Err(e),
            Ok((tag, j)) => {
                let field: u64 = tag / 8;
                let wire: u64 = tag % 8;
                if field == 0 {
                    Err(WireError::InvalidTag)
                } else if field == 1 {
                    if wire == 2 {
                        match len_delim_at(s, j) {
                            Err(e) => Err(e),
                            Ok((bytes, j2)) => match param_fields(bytes, 0, default_param()) {
                                Err(e) => Err(e),
                                Ok(p) => if i < j2 <= s.len() {
                                    payload_fields(
                                        s,
                                        j2,
                                        MigrationPayloadView {
                                            otp_parameters: acc.otp_parameters.push(p),
                                            ..acc
                                        },
                                    )
                                } else {
                                    Err(WireError::Truncated)
                                },
                            },
                        }
                    } else {
                        Err(WireError::InvalidWireType)
                    }
                } else if field == 2 || field == 3 || field == 4 || field == 5 {
                    if wire == 0 {
                        match varint_at(s, j) {
                            Err(e) => Err(e),
                            Ok((v, j2)) => if i < j2 <= s.len() {
                                if field == 2 {
                                    payload_fields(
                                        s,
                                        j2,
                                        MigrationPayloadView { version: low_bits_i32(v), ..acc },
                                    )
                                } else if field == 3 {
                                    payload_fields(
                                        s,
                                        j2,
                                        MigrationPayloadView { batch_size: low_bits_i32(v), ..acc },
                                    )
                                } else if field == 4 {
                                    payload_fields(
                                        s,
                                        j2,
                                        MigrationPayloadView {
                                            batch_index: low_bits_i32(v),
                                            ..acc
                                        },
                                    )
                                } else {
                                    payload_fields(
                                        s,
                                        j2,
                                        MigrationPayloadView { batch_id: as_i64(v), ..acc },
                                    )
                                }
                            } else {
                                Err(WireError::Truncated)
                            },
                        }
                    } else {
                        Err(WireError::InvalidWireType)
                    }
                } else {
                    match skip_at(s, j, wire) {
                        Err(e) => Err(e),
                        Ok(j2) => if i < j2 <= s.len() {
                            payload_fields(s, j2, acc)
                        } else {
                            Err(WireError::Truncated)
                        },
                    }
                }
            },
        }
    }
}

/// The payload a byte buffer decodes to under the fixed schema.
pub open spec fn spec_decode_payload(s: Seq<u8>) -> Result<MigrationPayloadView, WireError> {
    payload_fields(s, 0, default_payload())
}

/// Reads the varint starting at `i`.
fn decode_varint(s: &Vec<u8>, i: usize) -> (r: Result<(u64, usize), WireError>)
    requires
        i <= s@.len(),
    ensures
        r matches Ok(p) ==> varint_at(s@, i as int) == Ok::<(u64, int), WireError>(
            (p.0, p.1 as int),
        ) && i < p.1 <= s@.len(),
        r matches Err(e) ==> varint_at(s@, i as int) == Err::<(u64, int), WireError>(e),
{
    let mut k: usize = 0;
    let mut acc: u64 = 0;
    let mut j: usize = i;
    loop
        invariant
            i <= j <= s@.len(),
            k <= 10,
            j == i + k,
            varint_at(s@, i as int) == varint_from(s@, j as int, k as nat, acc),
        decreases 10 - k,
    {
        if j >= s.len() || k >= 10 {
            return Err(WireError::TruncatedVarint);
        }
        let b = s[j];
        let shift: u64 = (7 * k) as u64;
        acc = acc | (((b & 0x7f) as u64) << shift);
        j = j + 1;
        k = k + 1;
        if b < 0x80 {
            return Ok((acc, j));
        }
    }
}

/// Reads the length-delimited field starting at `i`: the index range of its
/// bytes and, by its second component, the index just past the field.
fn decode_len_delim(s: &Vec<u8>, i: usize) -> (r: Result<(usize, usize), WireError>)
    requires
        i <= s@.len(),
    ensures
        r matches Ok(se) ==> len_delim_at(s@, i as int) == Ok::<(Seq<u8>, int), WireError>(
            (s@.subrange(se.0 as int, se.1 as int), se.1 as int),
        ) && i < se.0 <= se.1 <= s@.len(),
        r matches Err(e) ==> len_delim_at(s@, i as int) == Err::<(Seq<u8>, int), WireError>(e),
{
    match decode_varint(s, i) {
        Err(e) => Err(e),
        Ok((len, j)) => {
            if len <= (s.len() - j) as u64 {
                Ok((j, j + (len as usize)))
            } else {
                Err(WireError::Truncated)
            }
        },
    }
}

/// Steps over an unknown field of the given wire type at `i`.
fn skip_field(s: &Vec<u8>, i: usize, wire: u64) -> (r: Result<usize, WireError>)
    requires
        i <= s@.len(),
    ensures
        r matches Ok(j) ==> skip_at(s@, i as int, wire) == Ok::<int, WireError>(j as int) && i < j
            <= s@.len(),
        r matches Err(e) ==> skip_at(s@, i as int, wire) == Err::<int, WireError>(e),
{
    if wire == 0 {
        match decode_varint(s, i) {
            Err(e) => Err(e),
            Ok((v, j)) => Ok(j),
        }
    } else if wire == 1 {
        if s.len() - i >= 8 {
            Ok(i + 8)
        } else {
            Err(WireError::Truncated)
        }
    } else if wire == 2 {
        match decode_len_delim(s, i) {
            Err(e) => Err(e),
            Ok((start, end)) => Ok(end),
        }
    } else if wire == 5 {
        if s.len() - i >= 4 {
            Ok(i + 4)
        } else {
            Err(WireError::Truncated)
        }
    } else {
        Err(WireError::InvalidWireType)
    }
}

/// Copies the bytes of an index range into a fresh buffer.
fn copy_range(s: &Vec<u8>, start: usize, end: usize) -> (r: Vec<u8>)
    requires
        start <= end <= s@.len(),
    ensures
        r@ == s@.subrange(start as int, end as int),
{
    let mut out: Vec<u8> = Vec::new();
    let mut idx: usize = start;
    while idx < end
        invariant
            start <= idx <= end <= s@.len(),
            out@ == s@.subrange(start as int, idx as int),
        decreases end - idx,
    {
        out.push(s[idx]);
        proof {
            assert(out@ =~= s@.subrange(start as int, (idx + 1) as int));
        }
        idx = idx + 1;
    }
    out
}

/// Decodes one credential record from a byte buffer.
pub fn decode_otp_parameters(s: &Vec<u8>) -> (r: Result<OtpParameters, WireError>)
    ensures
        r matches Ok(p) ==> param_fields(s@, 0, default_param()) == Ok::<
            OtpParametersView,
            WireError,
        >(p@),
        r matches Err(e) ==> param_fields(s@, 0, default_param()) == Err::<
            OtpParametersView,
            WireError,
        >(e),
{
    let mut acc = OtpParameters {
        secret: Vec::new(),
        name: String::new(),
        issuer: String::new(),
        algorithm: Algorithm::Unspecified,
        digits: DigitCount::Unspecified,
        otp_type: OtpType::Unspecified,
        counter: 0,
    };
    let mut i: usize = 0;
    proof {
        assert(acc@ =~= default_param());
    }
    while i < s.len()
        invariant
            i <= s@.len(),
            param_fields(s@, 0, default_param()) == param_fields(s@, i as int, acc@),
        decreases s@.len() - i,
    {
        let tag_j = match decode_varint(s, i) {
            Err(e) => {
                return Err(e);
            },
            Ok(p) => p,
        };
        let tag: u64 = tag_j.0;
        let j: usize = tag_j.1;
        let field: u64 = tag / 8;
        let wire: u64 = tag % 8;
        if field == 0 {
            return Err(WireError::InvalidTag);
        } else if field == 1 {
            if wire != 2 {
                return Err(WireError::InvalidWireType);
            }
            let se = match decode_len_delim(s, j) {
                Err(e) => {
                    return Err(e);
                },
                Ok(p) => p,
            };
            acc.secret = copy_range(s, se.0, se.1);
            i = se.1;
        } else if field == 2 || field == 3 {
            if wire != 2 {
                return Err(WireError::InvalidWireType);
            }
            let se = match decode_len_delim(s, j) {
                Err(e) => {
                    return Err(e);
                },
                Ok(p) => p,
            };
            let bytes = copy_range(s, se.0, se.1);
            let text = match bytes_to_string(bytes) {
                None => {
                    return Err(WireError::InvalidString);
                },
                Some(t) => t,
            };
            if field == 2 {
                acc.name = text;
            } else {
                acc.issuer = text;
            }
            i = se.1;
        } else if field == 4 || field == 5 || field == 6 || field == 7 {
            if wire != 0 {
                return Err(WireError::InvalidWireType);
            }
            let vj = match decode_varint(s, j) {
                Err(e) => {
                    return Err(e);
                },
                Ok(p) => p,
            };
            let v: u64 = vj.0;
            if field == 4 {
                let x: u64 = v % 0x1_0000_0000;
                acc.algorithm = if x == 1 {
                    Algorithm::Sha1
                } else if x == 2 {
                    Algorithm::Sha256
                } else if x == 3 {
                    Algorithm::Sha512
                } else if x == 4 {
                    Algorithm::Md5
                } else {
                    Algorithm::Unspecified
                };
            } else if field == 5 {
                let x: u64 = v % 0x1_0000_0000;
                acc.digits = if x == 1 {
                    DigitCount::Six
                } else if x == 2 {
                    DigitCount::Eight
                } else {
                    DigitCount::Unspecified
                };
            } else if field == 6 {
                let x: u64 = v % 0x1_0000_0000;
                acc.otp_type = if x == 1 {
                    OtpType::Hotp
                } else if x == 2 {
                    OtpType::Totp
                } else {
                    OtpType::Unspecified
                };
            } else {
                acc.counter = exec_as_i64(v);
            }
            i = vj.1;
        } else {
            let j2 = match skip_field(s, j, wire) {
                Err(e) => {
                    return Err(e);
                },
                Ok(p) => p,
            };
            i = j2;
        }
    }
    Ok(acc)
}

/// Reinterprets a varint value as a signed 64-bit integer.
fn exec_as_i64(v: u64) -> (r: i64)
    ensures
        r == as_i64(v),
{
    if v >= 0x8000_0000_0000_0000 {
        i64::MIN + ((v - 0x8000_0000_0000_0000) as i64)
    } else {
        v as i64
    }
}

/// Reinterprets the low 32 bits of a varint value as a signed 32-bit integer.
fn exec_low_bits_i32(v: u64) -> (r: i32)
    ensures
        r == low_bits_i32(v),
{
    let x: u64 = v % 0x1_0000_0000;
    if x >= 0x8000_0000 {
        i32::MIN + ((x - 0x8000_0000) as i32)
    } else {
        x as i32
    }
}

/// Decodes a whole migration payload from a byte buffer.
pub fn decode_migration_payload(s: &Vec<u8>) -> (r: Result<MigrationPayload, WireError>)
    ensures
        r matches Ok(p) ==> spec_decode_payload(s@) == Ok::<MigrationPayloadView, WireError>(p@),
        r matches Err(e) ==> spec_decode_payload(s@) == Err::<MigrationPayloadView, WireError>(e),
{
    let mut acc = MigrationPayload {
        otp_parameters: Vec::new(),
        version: 0,
        batch_size: 0,
        batch_index: 0,
        batch_id: 0,
    };
    let mut i: usize = 0;
    proof {
        assert(acc@.otp_parameters =~= default_payload().otp_parameters);
        assert(acc@ =~= default_payload());
    }
    while i < s.len()
        invariant
            i <= s@.len(),
            spec_decode_payload(s@) == payload_fields(s@, i as int, acc@),
        decreases s@.len() - i,
    {
        let tag_j = match decode_varint(s, i) {
            Err(e) => {
                return Err(e);
            },
            Ok(p) => p,
        };
        let tag: u64 = tag_j.0;
        let j: usize = tag_j.1;
        let field: u64 = tag / 8;
        let wire: u64 = tag % 8;
        if field == 0 {
            return Err(WireError::InvalidTag);
        } else if field == 1 {
            if wire != 2 {
                return Err(WireError::InvalidWireType);
            }
            let se = match decode_len_delim(s, j) {
                Err(e) => {
                    return Err(e);
                },
                Ok(p) => p,
            };
            let bytes = copy_range(s, se.0, se.1);
            let p = match decode_otp_parameters(&bytes) {
                Err(e) => {
                    return Err(e);
                },
                Ok(p) => p,
            };
            let ghost old_params = acc@.otp_parameters;
            acc.otp_parameters.push(p);
            proof {
                assert(acc@.otp_parameters =~= old_params.push(p@));
            }
            i = se.1;
        } else if field == 2 || field == 3 || field == 4 || field == 5 {
            if wire != 0 {
                return Err(WireError::InvalidWireType);
            }
            let vj = match decode_varint(s, j) {
                Err(e) => {
                    return Err(e);
                },
                Ok(p) => p,
            };
            let v: u64 = vj.0;
            if field == 2 {
                acc.version = exec_low_bits_i32(v);
            } else if field == 3 {
                acc.batch_size = exec_low_bits_i32(v);
            } else if field == 4 {
                acc.batch_index = exec_low_bits_i32(v);
            } else {
                acc.batch_id = exec_as_i64(v);
            }
            i = vj.1;
        } else {
            let j2 = match skip_field(s, j, wire) {
                Err(e) => {
                    return Err(e);
                },
                Ok(p) => p,
            };
            i = j2;
        }
    }
    Ok(acc)
}

} // verus!
