//! What becomes of a decryption: the text of the secret, or why there is
//! none.
//!
//! The decryption itself is done outside this library, by a symmetric,
//! password based primitive. It hands back either the decrypted bytes or its
//! own failure, a numeric code with a message ([`GpgFailure`]).
//! [`decrypted_text`] turns that outcome into the secret's text or into a
//! [`CryptoError`]. Nothing is retried and nothing is remembered: each outcome
//! is judged by itself.

use vstd::prelude::*;
use vstd::string::StringExecFns;
use vstd::utf8::{
    decode_utf8, encode_utf8, encode_utf8_decode_utf8, encode_utf8_valid_utf8, valid_utf8,
};

verus! {

/// The code with which the primitive reports a bad passphrase.
pub const GPG_ERR_BAD_PASSPHRASE: u32 = 11;

/// The code with which the primitive reports that decryption failed. For a
/// password protected secret it means the same as a bad passphrase: the
/// primitive does not tell the two apart reliably.
pub const GPG_ERR_DECRYPT_FAILED: u32 = 152;

/// A failure of the decryption primitive, as it reports it.
#[derive(Debug, Clone, PartialEq, Eq)]
pub struct GpgFailure {
    /// The primitive's error code.
    pub code: u32,
    /// The primitive's own description of the failure.
    pub message: String,
}

/// Why a secret could not be turned into text.
#[derive(Debug, Clone, PartialEq, Eq)]
pub enum CryptoError {
    /// The password does not open the secret.
    WrongPassword,
    /// Decryption went through and produced no byte at all.
    NoData,
    /// The primitive failed for another reason.
    GpgError(GpgFailure),
    /// The decrypted bytes are not UTF-8. Holds the decoder's description of
    /// where they stop being so.
    Utf8Error(String),
}

/// Whether `code` stands for a wrong password.
pub open spec fn wrong_password_code(code: u32) -> bool {
    code == GPG_ERR_BAD_PASSPHRASE || code == GPG_ERR_DECRYPT_FAILED
}

/// The error that a failure of the primitive stands for: a wrong password for
/// the two codes that mean one, and the failure itself for every other code.
pub open spec fn classified(failure: GpgFailure) -> CryptoError {
    if wrong_password_code(failure.code) {
        CryptoError::WrongPassword
    } else {
        CryptoError::GpgError(failure)
    }
}

impl From<GpgFailure> for CryptoError {
    fn from(failure: GpgFailure) -> (error: CryptoError) {
        if failure.code == GPG_ERR_BAD_PASSPHRASE || failure.code == GPG_ERR_DECRYPT_FAILED {
            CryptoError::WrongPassword
        } else {
            CryptoError::GpgError(failure)
        }
    }
}

impl vstd::std_specs::convert::FromSpecImpl<GpgFailure> for CryptoError {
    open spec fn obeys_from_spec() -> bool {
        true
    }

    open spec fn from_spec(failure: GpgFailure) -> CryptoError {
        classified(failure)
    }
}

/// The message that is shown for `error`.
pub open spec fn message_of(error: CryptoError) -> Seq<char> {
    match error {
        CryptoError::WrongPassword => "Incorrect password"@,
        CryptoError::NoData => "No data in encrypted file"@,
        CryptoError::GpgError(failure) => "GPG error: "@ + failure.message@,
        CryptoError::Utf8Error(detail) => "Invalid UTF-8 in decrypted content: "@ + detail@,
    }
}

impl CryptoError {
    /// The message that is shown for this error.
    pub fn message(&self) -> (text: String)
        ensures
            text@ == message_of(*self),
    {
        match self {
            CryptoError::WrongPassword => "Incorrect password".to_owned(),
            CryptoError::NoData => "No data in encrypted file".to_owned(),
            CryptoError::GpgError(failure) => {
                let mut text = "GPG error: ".to_owned();
                text.append(failure.message.as_str());
                text
            },
            CryptoError::Utf8Error(detail) => {
                let mut text = "Invalid UTF-8 in decrypted content: ".to_owned();
                text.append(detail.as_str());
                text
            },
        }
    }
}

/// `std::string::FromUtf8Error`: why a vector of bytes is no `String`.
#[verifier::external_type_specification]
#[verifier::external_body]
pub struct ExFromUtf8Error(std::string::FromUtf8Error);

/// `String::from_utf8`. The result is `Ok` exactly when the bytes are valid
/// UTF-8, and the string then holds the characters that the bytes encode.
#[verifier::external_body]
fn text_from_utf8(bytes: Vec<u8>) -> (r: Result<String, std::string::FromUtf8Error>)
    ensures
        r is Ok <==> valid_utf8(bytes@),
        r matches Ok(text) ==> text@ == decode_utf8(bytes@),
{
    String::from_utf8(bytes)
}

/// `ToString::to_string` on a `FromUtf8Error`: the error's own description.
/// Nothing is claimed of its wording.
#[verifier::external_body]
fn utf8_error_detail(error: &std::string::FromUtf8Error) -> String {
    error.to_string()
}

/// What [`decrypted_text`] returns for `outcome`, up to the wording of the
/// decoder's description in `Utf8Error`.
pub open spec fn text_or_error(
    outcome: Result<Vec<u8>, GpgFailure>,
    result: Result<String, CryptoError>,
) -> bool {
    match outcome {
        Err(failure) => result == Err::<String, CryptoError>(classified(failure)),
        Ok(bytes) => if bytes@.len() == 0 {
            result == Err::<String, CryptoError>(CryptoError::NoData)
        } else if valid_utf8(bytes@) {
            result matches Ok(text) && text@ == decode_utf8(bytes@)
        } else {
            result matches Err(CryptoError::Utf8Error(_))
        },
    }
}

/// Judges the outcome of a decryption.
///
/// A failure of the primitive becomes `WrongPassword` for the two codes that
/// mean a wrong password, and `GpgError` with the failure unchanged for every
/// other code. Decrypted bytes become `NoData` if there are none, the text
/// they encode if they are valid UTF-8, and `Utf8Error` otherwise.
pub fn decrypted_text(outcome: Result<Vec<u8>, GpgFailure>) -> (result: Result<
    String,
    CryptoError,
>)
    ensures
        text_or_error(outcome, result),
{
    match outcome {
        Err(failure) => Err(CryptoError::from(failure)),
        Ok(bytes) => {
            if bytes.len() == 0 {
                Err(CryptoError::NoData)
            } else {
                match text_from_utf8(bytes) {
                    Ok(text) => Ok(text),
                    Err(error) => Err(CryptoError::Utf8Error(utf8_error_detail(&error))),
                }
            }
        },
    }
}

/// The text of a secret comes back as it went in: if the primitive hands
/// back the bytes that encode a text of at least one character, the outcome
/// is judged to be that text. (A secret of no characters at all is judged
/// `NoData`.)
pub proof fn lemma_decrypted_bytes_give_the_text(
    text: Seq<char>,
    bytes: Vec<u8>,
    result: Result<String, CryptoError>,
)
    requires
        text.len() > 0,
        bytes@ == encode_utf8(text),
        text_or_error(Ok(bytes), result),
    ensures
        result matches Ok(decoded) && decoded@ == text,
{
    encode_utf8_valid_utf8(text);
    encode_utf8_decode_utf8(text);
    if bytes@.len() == 0 {
        assert(decode_utf8(bytes@) =~= text);
        assert(decode_utf8(Seq::<u8>::empty()).len() == 0) by {
            reveal_with_fuel(decode_utf8, 1);
        }
    }
}

/// Both codes that mean a wrong password are judged `WrongPassword`,
/// whatever message comes with them, and no other code is.
pub proof fn lemma_wrong_password_codes(failure: GpgFailure, result: Result<String, CryptoError>)
    requires
        text_or_error(Err(failure), result),
    ensures
        result is Err,
        result == Err::<String, CryptoError>(CryptoError::WrongPassword) <==> (failure.code == 11
            || failure.code == 152),
{
}

} // verus!
