//! The secret envelope as the broker delivers it.

use vstd::prelude::*;
use crate::error::AgentError;
use crate::encoding::{base64_bytes, base64_decode};

verus! {

/// The broker's answer to a secret request, each field decoded from the
/// base64 text that carried it.
#[derive(Debug)]
pub struct SecretsPayload {
    /// The symmetric key, wrapped to the wrapping key's public half.
    pub wrapped_key: Vec<u8>,
    /// The secret's ciphertext.
    pub blob: Vec<u8>,
    /// The initialization vector of the ciphertext.
    pub iv: Vec<u8>,
    /// The integrity tag of the ciphertext.
    pub tag: Vec<u8>,
}

/// What a field of the envelope decodes to: its bytes, or `MalformedEnvelope`
/// where the text is not standard base64.
pub open spec fn decoded_field(text: Seq<char>) -> Result<Seq<u8>, AgentError> {
    match base64_bytes(text) {
        Some(bytes) => Ok(bytes),
        None => Err(AgentError::MalformedEnvelope),
    }
}

/// Whether all four fields of an envelope decode.
pub open spec fn envelope_decodes(
    wrapped_key: Seq<char>,
    blob: Seq<char>,
    iv: Seq<char>,
    tag: Seq<char>,
) -> bool {
    base64_bytes(wrapped_key) is Some && base64_bytes(blob) is Some && base64_bytes(iv) is Some
        && base64_bytes(tag) is Some
}

/// Decodes one field of the envelope from standard base64.
pub fn deserialize_base64(text: &str) -> (r: Result<Vec<u8>, AgentError>)
    ensures
        match decoded_field(text@) {
            Ok(bytes) => r matches Ok(v) && v@ == bytes,
            Err(e) => r matches Err(e2) && e2 == e,
        },
{
    match base64_decode(text) {
        Some(bytes) => Ok(bytes),
        None => Err(AgentError::MalformedEnvelope),
    }
}

impl SecretsPayload {
    /// Decodes an envelope from the four texts of its wire format. Either
    /// every field decodes and the payload holds their bytes, or the result
    /// is `MalformedEnvelope`: no field is used without the others.
    pub fn from_base64(wrapped_key: &str, blob: &str, iv: &str, tag: &str) -> (r: Result<
        SecretsPayload,
        AgentError,
    >)
        ensures
            envelope_decodes(wrapped_key@, blob@, iv@, tag@) ==> (r matches Ok(p) && Some(
                p.wrapped_key@,
            ) == base64_bytes(wrapped_key@) && Some(p.blob@) == base64_bytes(blob@) && Some(p.iv@)
                == base64_bytes(iv@) && Some(p.tag@) == base64_bytes(tag@)),
            !envelope_decodes(wrapped_key@, blob@, iv@, tag@) ==> (r matches Err(e) && e
                == AgentError::MalformedEnvelope),
    {
        let wrapped_key = match deserialize_base64(wrapped_key) {
            Ok(bytes) => bytes,
            Err(e) => {
                return Err(e);
            },
        };
        let blob = match deserialize_base64(blob) {
            Ok(bytes) => bytes,
            Err(e) => {
                return Err(e);
            },
        };
        let iv = match deserialize_base64(iv) {
            Ok(bytes) => bytes,
            Err(e) => {
                return Err(e);
            },
        };
        let tag = match deserialize_base64(tag) {
            Ok(bytes) => bytes,
            Err(e) => {
                return Err(e);
            },
        };
        Ok(SecretsPayload { wrapped_key, blob, iv, tag })
    }
}

} // verus!
