//! Attestation-bound secret provisioning for a workload inside a trusted
//! execution environment: evidence collection, key unwrapping and
//! authenticated decryption of the delivered secret.

pub mod error;
pub mod encoding;
pub mod crypto;
pub mod utils;
pub mod tee_evidence;
pub mod provisioning;
