//! The failure kinds that the components report.

use vstd::prelude::*;

verus! {

/// Why a provisioning attempt stopped. Every kind is terminal for the attempt.
#[derive(Debug, Clone, Copy, PartialEq, Eq, Structural)]
pub enum AgentError {
    /// A key size other than 2048, 3072 or 4096 bits was asked for.
    InvalidParameter,
    /// The freshness nonce is not exactly 64 bytes long.
    InvalidNonce,
    /// The platform's report interface could not be used, or gave no report.
    EvidenceUnavailable,
    /// The platform names a report provider that is not known.
    UnsupportedPlatform,
    /// Unwrapping or decryption failed, a wrong integrity tag included.
    CryptoError,
    /// A field of the secret envelope is not valid base64, or the envelope is
    /// not of the expected structure.
    MalformedEnvelope,
    /// The key broker failed or could not be reached.
    BrokerError,
}

impl AgentError {
    /// The kind's tag as it is shown to the operator.
    pub open spec fn tag_spec(self) -> Seq<char> {
        match self {
            AgentError::InvalidParameter => "InvalidParameter"@,
            AgentError::InvalidNonce => "InvalidNonce"@,
            AgentError::EvidenceUnavailable => "EvidenceUnavailable"@,
            AgentError::UnsupportedPlatform => "UnsupportedPlatform"@,
            AgentError::CryptoError => "CryptoError"@,
            AgentError::MalformedEnvelope => "MalformedEnvelope"@,
            AgentError::BrokerError => "BrokerError"@,
        }
    }

    /// The kind's tag as it is shown to the operator.
    pub fn tag(&self) -> (r: &'static str)
        ensures
            r@ == self.tag_spec(),
    {
        match self {
            AgentError::InvalidParameter => "InvalidParameter",
            AgentError::InvalidNonce => "InvalidNonce",
            AgentError::EvidenceUnavailable => "EvidenceUnavailable",
            AgentError::UnsupportedPlatform => "UnsupportedPlatform",
            AgentError::CryptoError => "CryptoError",
            AgentError::MalformedEnvelope => "MalformedEnvelope",
            AgentError::BrokerError => "BrokerError",
        }
    }
}

} // verus!
