//! The signing certificate that the environment may hold.

use vstd::prelude::*;
use vstd::string::StringExecFns;
use base64::Engine;
use crate::error::ProducerError;
use crate::text::starts_with;
use crate::text::str_trim;
use crate::text::trim;

verus! {

/// The decode error of the base64 crate.
#[verifier::external_type_specification]
#[verifier::external_body]
pub struct ExBase64DecodeError(base64::DecodeError);

/// The bytes that a text stands for in standard base64 with padding; none
/// where the text is no such encoding.
pub uninterp spec fn base64_decoded(text: Seq<char>) -> Option<Seq<u8>>;

/// `Engine::decode` of the base64 crate with its `STANDARD` engine.
#[verifier::external_body]
fn base64_decode(text: &str) -> (r: Result<Vec<u8>, base64::DecodeError>)
    ensures
        match r {
            Ok(bytes) => base64_decoded(text@) == Some(bytes@),
            Err(_) => base64_decoded(text@) is None,
        },
{
    base64::engine::general_purpose::STANDARD.decode(text)
}

/// The text of a base64 decode error, as its `Display` writes it.
#[verifier::external_body]
fn decode_error_text(e: &base64::DecodeError) -> (r: String) {
    e.to_string()
}

/// A certificate to sign with, and the password that opens it.
#[derive(Debug)]
pub struct SigningCertificate {
    /// The bytes of the certificate.
    pub bytes: Vec<u8>,
    /// The password, without white space at its ends.
    pub password: String,
}

/// What every report on an unreadable certificate begins with.
pub open spec fn invalid_certificate_prefix() -> Seq<char> {
    "Invalid APPLE_CERTIFICATE (not valid base64): "@
}

/// The certificate with the given bytes and password.
pub fn certificate(bytes: Vec<u8>, password: &str) -> (r: SigningCertificate)
    ensures
        r.bytes == bytes,
        r.password@ == trim(password@),
{
    SigningCertificate { bytes, password: str_trim(password) }
}

/// The certificate that the environment holds. There is one only where both
/// the certificate and its password are set; a certificate that is set and
/// is no base64 is an error.
pub fn setup_macos_signing(certificate_base64: Option<String>, password: Option<String>) -> (r:
    Result<Option<SigningCertificate>, ProducerError>)
    ensures
        match (certificate_base64, password) {
            (Some(encoded), Some(secret)) => match base64_decoded(encoded@) {
                Some(bytes) => r matches Ok(Some(found)) && found.bytes@ == bytes
                    && found.password@ == trim(secret@),
                None => r matches Err(ProducerError::GenericError(text)) && starts_with(
                    text@,
                    invalid_certificate_prefix(),
                ),
            },
            _ => r matches Ok(None),
        },
{
    match (certificate_base64, password) {
        (Some(encoded), Some(secret)) => match base64_decode(encoded.as_str()) {
            Ok(bytes) => Ok(Some(certificate(bytes, secret.as_str()))),
            Err(e) => {
                let mut text = String::from_str("Invalid APPLE_CERTIFICATE (not valid base64): ");
                let ghost head = text@;
                let why = decode_error_text(&e);
                text.append(why.as_str());
                proof {
                    assert(text@.subrange(0, head.len() as int) =~= head);
                }
                Err(ProducerError::GenericError(text))
            },
        },
        _ => Ok(None),
    }
}

} // verus!
