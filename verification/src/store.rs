//! The credential store: per-account persistence of the device identity
//! and the session token.
//!
//! An account's artifacts live in its own working directory,
//! `<data-root>/<account-id>/`: the device document in `device.json`, the
//! serialized session token in `token.json`.  The filesystem itself is
//! behind the [`Store`] trait; this module holds the decisions — what a
//! missing, malformed or present file means — with exact contracts.

use vstd::prelude::*;

use crate::device::{DeviceIdentity, DeviceModel, FormatError, FormatErrorModel, spec_from_json};
use crate::errors::{IoError, LoginError};
use crate::gen::{chacha8_words, random_from_uin, spec_generated_device};
use crate::json::JsonValue;

verus! {

/// The decimal digits of `n`, most significant first.
pub open spec fn dec_digits(n: nat) -> Seq<char>
    decreases n,
{
    if n < 10 {
        seq![crate::hexstr::hex_digit_of(n as u8)]
    } else {
        dec_digits(n / 10).push(crate::hexstr::hex_digit_of((n % 10) as u8))
    }
}

/// The decimal text of `v`, with a leading minus sign when negative.
pub open spec fn spec_decimal(v: i64) -> Seq<char> {
    if v < 0 {
        seq!['-'] + dec_digits((-(v as int)) as nat)
    } else {
        dec_digits(v as nat)
    }
}

/// Appends the decimal digits of `n` to `s`.
fn push_unsigned(s: &mut String, n: u64)
    ensures
        final(s)@ == old(s)@ + dec_digits(n as nat),
    decreases n,
{
    if n < 10 {
        crate::gen::push_nibble(s, n as u8);
        proof {
            assert(old(s)@ + dec_digits(n as nat) =~= old(s)@.push(
                crate::hexstr::hex_digit_of(n as u8),
            ));
        }
    } else {
        push_unsigned(s, n / 10);
        crate::gen::push_nibble(s, (n % 10) as u8);
        proof {
            assert(old(s)@ + dec_digits(n as nat) =~= (old(s)@ + dec_digits(
                (n / 10) as nat,
            )).push(crate::hexstr::hex_digit_of((n % 10) as u8)));
        }
    }
}

/// Appends the decimal text of `v` to `s`.
fn push_decimal(s: &mut String, v: i64)
    ensures
        final(s)@ == old(s)@ + spec_decimal(v),
{
    if v < 0 {
        s.append("-");
        let mag: u64 = if v == i64::MIN {
            9223372036854775808u64
        } else {
            (-v) as u64
        };
        proof {
            reveal_strlit("-");
            assert(mag == -(v as int));
        }
        let ghost mid = s@;
        push_unsigned(s, mag);
        proof {
            assert(mid =~= old(s)@ + seq!['-']);
            assert(old(s)@ + spec_decimal(v) =~= (old(s)@ + seq!['-']) + dec_digits(
                mag as nat,
            ));
        }
    } else {
        push_unsigned(s, v as u64);
    }
}

/// The account's working directory: `<data-root>/<account-id>`.
pub fn account_dir(data_root: &str, uin: i64) -> (r: String)
    ensures
        r@ == data_root@ + "/"@ + spec_decimal(uin),
{
    let mut s = String::from_str(data_root);
    s.append("/");
    push_decimal(&mut s, uin);
    s
}

/// The account's device document: `<data-root>/<account-id>/device.json`.
pub fn device_path(data_root: &str, uin: i64) -> (r: String)
    ensures
        r@ == data_root@ + "/"@ + spec_decimal(uin) + "/device.json"@,
{
    let mut s = account_dir(data_root, uin);
    s.append("/device.json");
    s
}

/// The account's session token: `<data-root>/<account-id>/token.json`.
pub fn token_path(data_root: &str, uin: i64) -> (r: String)
    ensures
        r@ == data_root@ + "/"@ + spec_decimal(uin) + "/token.json"@,
{
    let mut s = account_dir(data_root, uin);
    s.append("/token.json");
    s
}

/// An opaque serialized session token, produced by the connection engine
/// after successful authentication.  It is scoped to one account and is
/// always replaced wholesale, never edited.
#[derive(Debug, Clone, PartialEq, Eq)]
pub struct SessionToken {
    /// The serialized form, as it is persisted.
    pub raw: String,
}

/// What reading a persisted artifact yielded.
#[derive(Debug, PartialEq, Eq)]
pub enum FileRead<T> {
    /// The file does not exist.
    Missing,
    /// The file exists but its content could not be read as the artifact.
    Malformed,
    /// The parsed artifact.
    Present(T),
}

/// The filesystem interface of the store.  Implementations perform the
/// reads and writes; nothing is assumed of their results.
pub trait Store {
    /// Ensures the account's working directory exists.
    fn ensure_account_dir(&mut self, uin: i64) -> Result<(), IoError>;

    /// Reads the account's device document.
    fn read_device(&mut self, uin: i64) -> Result<FileRead<JsonValue>, IoError>;

    /// Writes the account's device document.
    fn write_device(&mut self, uin: i64, doc: &JsonValue) -> Result<(), IoError>;

    /// Reads the account's session token.
    fn read_token(&mut self, uin: i64) -> Result<FileRead<SessionToken>, IoError>;

    /// Writes the account's session token, replacing any previous one.
    fn write_token(&mut self, uin: i64, token: &SessionToken) -> Result<(), IoError>;

    /// Removes the account's session token, if any.
    fn delete_token(&mut self, uin: i64) -> Result<(), IoError>;
}

/// What a read token file means: a missing file is no token — not an
/// error — while a file that does not parse is a malformed-token error,
/// and a parsed token is returned as it stands.
pub fn token_from_file(file: FileRead<SessionToken>) -> (r: Result<
    Option<SessionToken>,
    LoginError,
>)
    ensures
        match file {
            FileRead::Missing => r == Ok::<Option<SessionToken>, LoginError>(
                None::<SessionToken>,
            ),
            FileRead::Malformed => r == Err::<Option<SessionToken>, LoginError>(
                LoginError::TokenMalformed,
            ),
            FileRead::Present(t) => r == Ok::<Option<SessionToken>, LoginError>(
                Some(t),
            ),
        },
{
    match file {
        FileRead::Missing => Ok(None),
        FileRead::Malformed => Err(LoginError::TokenMalformed),
        FileRead::Present(t) => Ok(Some(t)),
    }
}

/// Loads the account's persisted session token: `None` when no token file
/// exists, an error only on an I/O failure or a malformed token file.
pub fn try_load_token<S: Store>(store: &mut S, uin: i64) -> (r: Result<
    Option<SessionToken>,
    LoginError,
>)
    ensures
        r matches Err(e) ==> e is Io || e is TokenMalformed,
{
    match store.read_token(uin) {
        Ok(file) => token_from_file(file),
        Err(e) => Err(LoginError::Io(e)),
    }
}

/// What becomes of a read device file.
#[derive(Debug)]
pub enum DevicePlan {
    /// The persisted document decoded; nothing is written.
    Loaded(DeviceIdentity),
    /// No file existed: a fresh identity was generated, and the document
    /// that holds it is to be written.
    Created(DeviceIdentity, JsonValue),
}

/// What a read device file means.  A present document is decoded with the
/// deterministically generated identity as the fallback for its absent
/// fields; a missing file yields that generated identity and the document
/// to persist it; a file that is not a JSON document at all is a format
/// error naming no field (it has no readable root object).
pub fn device_from_file(file: FileRead<JsonValue>, uin: i64) -> (r: Result<DevicePlan, LoginError>)
    ensures
        ({
            let generated = spec_generated_device(chacha8_words(uin as u64, 124));
            match file {
                FileRead::Missing => match r {
                    Ok(plan) => plan matches DevicePlan::Created(d, doc) && d@ == generated
                        && d.wf() && (forall|fb: DeviceModel|
                        spec_from_json(doc, fb) == Ok::<DeviceModel, FormatErrorModel>(d@)),
                    Err(_) => false,
                },
                FileRead::Malformed => r == Err::<DevicePlan, LoginError>(
                    LoginError::Format(FormatError::NotAnObject),
                ),
                FileRead::Present(v) => match spec_from_json(v, generated) {
                    Ok(m) => r matches Ok(DevicePlan::Loaded(d)) && d@ == m && d.wf(),
                    Err(e) => r matches Err(le) && le matches LoginError::Format(fe) && fe@ == e,
                },
            }
        }),
        r matches Err(e) ==> e is Format,
{
    let fallback = random_from_uin(uin);
    match file {
        FileRead::Missing => {
            let doc = crate::device::to_json(&fallback);
            Ok(DevicePlan::Created(fallback, doc))
        },
        FileRead::Malformed => Err(LoginError::Format(FormatError::NotAnObject)),
        FileRead::Present(v) => match crate::device::from_json(&v, &fallback) {
            Ok(d) => Ok(DevicePlan::Loaded(d)),
            Err(e) => Err(LoginError::Format(e)),
        },
    }
}

/// Ensures the account's working directory exists, then loads its device
/// identity: an existing `device.json` is decoded (with the generated
/// identity as fallback for absent fields), and when none exists a fresh
/// identity is generated and written out as the new `device.json`.
pub fn load_or_create_identity<S: Store>(store: &mut S, uin: i64) -> (r: Result<
    DeviceIdentity,
    LoginError,
>)
    ensures
        r matches Ok(d) ==> d.wf(),
        r matches Err(e) ==> e is Io || e is Format,
{
    match store.ensure_account_dir(uin) {
        Ok(()) => {},
        Err(e) => {
            return Err(LoginError::Io(e));
        },
    }
    let file = match store.read_device(uin) {
        Ok(f) => f,
        Err(e) => {
            return Err(LoginError::Io(e));
        },
    };
    match device_from_file(file, uin) {
        Ok(DevicePlan::Loaded(d)) => Ok(d),
        Ok(DevicePlan::Created(d, doc)) => {
            match store.write_device(uin, &doc) {
                Ok(()) => Ok(d),
                Err(e) => Err(LoginError::Io(e)),
            }
        },
        Err(e) => Err(e),
    }
}

/// Persists a fresh session token for the account.
pub fn save_token<S: Store>(store: &mut S, uin: i64, token: &SessionToken) -> (r: Result<
    (),
    LoginError,
>)
    ensures
        r matches Err(e) ==> e is Io,
{
    match store.write_token(uin, token) {
        Ok(()) => Ok(()),
        Err(e) => Err(LoginError::Io(e)),
    }
}

} // verus!
