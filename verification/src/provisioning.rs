//! The provisioning attempt from end to end: a fresh wrapping key, the
//! broker's nonce, the platform's evidence, the broker's envelope, and the
//! secret recovered from it.
//!
//! The broker and the platform are reached by the caller. The decisions are
//! made here, one step at a time and in strict order: the caller performs
//! the pending action and comes back with what happened. Any failure ends
//! the attempt with its own reason; there is no retry and no partial result.

use vstd::prelude::*;
use crate::error::AgentError;
use crate::encoding::{base64_bytes, base64_fits, base64_text};
use crate::crypto::{
    aes_decrypt_spec,
    bytes_result_view,
    crypto_outcome_spec,
    decrypt_secret_with_aes_key,
    generate_wrapping_key,
    rsa_oaep_sha256_open,
    RsaKey,
};
use crate::utils::{envelope_decodes, SecretsPayload};

verus! {

/// The secret that a decoded envelope holds for the owner of a private key:
/// the symmetric key is unwrapped first, and only with it is the payload
/// decrypted and its tag checked. Either failure is a `CryptoError`.
pub open spec fn recovered_secret(
    private_der: Seq<u8>,
    wrapped_key: Seq<u8>,
    blob: Seq<u8>,
    iv: Seq<u8>,
    tag: Seq<u8>,
) -> Result<Seq<u8>, AgentError> {
    match rsa_oaep_sha256_open(private_der, wrapped_key) {
        Some(aes_key) => crypto_outcome_spec(aes_decrypt_spec(aes_key, iv, blob, tag)),
        None => Err(AgentError::CryptoError),
    }
}

/// The secret that an envelope in its wire format holds for the owner of a
/// private key. An envelope with a field that is not standard base64 is
/// malformed, whatever its other fields hold.
pub open spec fn released_secret(
    private_der: Seq<u8>,
    wrapped_key: Seq<char>,
    blob: Seq<char>,
    iv: Seq<char>,
    tag: Seq<char>,
) -> Result<Seq<u8>, AgentError> {
    if envelope_decodes(wrapped_key, blob, iv, tag) {
        recovered_secret(
            private_der,
            base64_bytes(wrapped_key)->Some_0,
            base64_bytes(blob)->Some_0,
            base64_bytes(iv)->Some_0,
            base64_bytes(tag)->Some_0,
        )
    } else {
        Err(AgentError::MalformedEnvelope)
    }
}

/// Recovers the secret from a decoded envelope: unwraps the symmetric key
/// with the wrapping key's private half, then decrypts the payload with it
/// and checks its tag.
pub fn recover_secret(key: &RsaKey, payload: SecretsPayload) -> (r: Result<Vec<u8>, AgentError>)
    ensures
        bytes_result_view(r) == recovered_secret(
            key.private_der(),
            payload.wrapped_key@,
            payload.blob@,
            payload.iv@,
            payload.tag@,
        ),
{
    let aes_key = match key.unwrap_key(payload.wrapped_key.as_slice()) {
        Ok(bytes) => bytes,
        Err(e) => {
            return Err(e);
        },
    };
    let mut blob = payload.blob;
    decrypt_secret_with_aes_key(
        aes_key.as_slice(),
        payload.iv.as_slice(),
        &mut blob,
        payload.tag.as_slice(),
    )
}

/// Recovers the secret from an envelope in its wire format: every field is
/// decoded from base64 before any of them is used.
pub fn release_secret(key: &RsaKey, wrapped_key: &str, blob: &str, iv: &str, tag: &str) -> (r:
    Result<Vec<u8>, AgentError>)
    ensures
        bytes_result_view(r) == released_secret(key.private_der(), wrapped_key@, blob@, iv@, tag@),
{
    match SecretsPayload::from_base64(wrapped_key, blob, iv, tag) {
        Ok(payload) => recover_secret(key, payload),
        Err(e) => Err(e),
    }
}

/// What an attempt keeps from its beginning to its end.
pub struct Session {
    /// The wrapping key pair of this attempt.
    pub key: RsaKey,
    /// The public half as the broker gets it.
    pub wrapping_key: String,
    /// The identifier of the secret that is asked for.
    pub key_id: String,
}

/// What came back from the action that was pending.
pub enum ProvisioningEvent {
    /// The broker told its version.
    Version(String),
    /// The broker issued a nonce.
    Nonce(String),
    /// The platform gave evidence: the encoded report and the technology.
    Evidence { report: String, tee_type: String },
    /// The broker delivered an envelope, each field as base64 text.
    Envelope { wrapped_key: String, blob: String, iv: String, tag: String },
    /// The action failed, for this reason.
    Failed(AgentError),
}

/// What the caller is to do next.
pub enum ProvisioningAction {
    /// Ask the broker for its version, to see that it is alive.
    QueryVersion,
    /// Ask the broker for a nonce.
    QueryNonce,
    /// Collect evidence over this nonce.
    CollectEvidence { nonce: String },
    /// Ask the broker for the secret.
    QuerySecret {
        nonce: String,
        evidence: String,
        tee_type: String,
        key_id: String,
        wrapping_key: String,
    },
    /// Hand the recovered secret out: the attempt has succeeded.
    Emit(Vec<u8>),
    /// Give up for this reason: nothing was recovered.
    Abort(AgentError),
}

/// Where a provisioning attempt stands. Each state but the last waits for
/// the outcome of one pending action.
pub enum ProvisioningState {
    /// Waiting for the broker's version.
    AwaitingVersion(Session),
    /// Waiting for the broker's nonce.
    AwaitingNonce(Session),
    /// Waiting for the platform's evidence over the nonce.
    AwaitingEvidence { session: Session, nonce: String },
    /// Waiting for the broker's envelope.
    AwaitingSecret(Session),
    /// The attempt has ended.
    Finished,
}

/// The steps of an attempt, in their order.
#[derive(Debug, Clone, Copy, PartialEq, Eq, Structural)]
pub enum Stage {
    Version,
    Nonce,
    Evidence,
    Secret,
    End,
}

impl ProvisioningAction {
    /// The step that the action belongs to.
    pub open spec fn stage_spec(self) -> Stage {
        match self {
            ProvisioningAction::QueryVersion => Stage::Version,
            ProvisioningAction::QueryNonce => Stage::Nonce,
            ProvisioningAction::CollectEvidence { .. } => Stage::Evidence,
            ProvisioningAction::QuerySecret { .. } => Stage::Secret,
            ProvisioningAction::Emit(_) => Stage::End,
            ProvisioningAction::Abort(_) => Stage::End,
        }
    }

    /// The step that the action belongs to.
    pub fn stage(&self) -> (r: Stage)
        ensures
            r == self.stage_spec(),
    {
        match self {
            ProvisioningAction::QueryVersion => Stage::Version,
            ProvisioningAction::QueryNonce => Stage::Nonce,
            ProvisioningAction::CollectEvidence { .. } => Stage::Evidence,
            ProvisioningAction::QuerySecret { .. } => Stage::Secret,
            ProvisioningAction::Emit(_) => Stage::End,
            ProvisioningAction::Abort(_) => Stage::End,
        }
    }
}

impl ProvisioningState {
    /// The step whose outcome the state waits for.
    pub open spec fn stage(self) -> Stage {
        match self {
            ProvisioningState::AwaitingVersion(_) => Stage::Version,
            ProvisioningState::AwaitingNonce(_) => Stage::Nonce,
            ProvisioningState::AwaitingEvidence { .. } => Stage::Evidence,
            ProvisioningState::AwaitingSecret(_) => Stage::Secret,
            ProvisioningState::Finished => Stage::End,
        }
    }

    /// The state that follows on an outcome. Only the outcome that the
    /// pending action was meant to have leads on; a failure, or an outcome
    /// of another kind, ends the attempt.
    pub open spec fn next(self, event: ProvisioningEvent) -> ProvisioningState {
        match (self, event) {
            (
                ProvisioningState::AwaitingVersion(session),
                ProvisioningEvent::Version(_),
            ) => ProvisioningState::AwaitingNonce(session),
            (
                ProvisioningState::AwaitingNonce(session),
                ProvisioningEvent::Nonce(nonce),
            ) => ProvisioningState::AwaitingEvidence { session, nonce },
            (
                ProvisioningState::AwaitingEvidence { session, nonce },
                ProvisioningEvent::Evidence { .. },
            ) => ProvisioningState::AwaitingSecret(session),
            _ => ProvisioningState::Finished,
        }
    }

    /// How an attempt ends on an outcome that ends it: with the secret that
    /// the envelope releases to the wrapping key, with the reason that the
    /// envelope releases none, with the reason of a failed action, or, for an
    /// outcome that the pending action cannot have, with `BrokerError`.
    pub open spec fn ending(self, event: ProvisioningEvent) -> Result<Seq<u8>, AgentError> {
        match (self, event) {
            (ProvisioningState::Finished, _) => Err(AgentError::BrokerError),
            (
                ProvisioningState::AwaitingSecret(session),
                ProvisioningEvent::Envelope { wrapped_key, blob, iv, tag },
            ) => released_secret(session.key.private_der(), wrapped_key@, blob@, iv@, tag@),
            (_, ProvisioningEvent::Failed(e)) => Err(e),
            _ => Err(AgentError::BrokerError),
        }
    }

    /// Whether `action` is what the caller is told on an outcome: the action
    /// of the step that follows, with what it carries. Evidence is collected
    /// over the nonce that the broker issued; the secret is asked for with
    /// that nonce, the evidence, the technology, the key identifier and the
    /// public half of the wrapping key; and the attempt ends as `ending` says.
    pub open spec fn tells(self, event: ProvisioningEvent, action: ProvisioningAction) -> bool {
        &&& action.stage_spec() == self.next(event).stage()
        &&& action matches ProvisioningAction::CollectEvidence { nonce } ==> {
            &&& event matches ProvisioningEvent::Nonce(issued)
            &&& nonce == issued
        }
        &&& action matches ProvisioningAction::QuerySecret {
            nonce,
            evidence,
            tee_type,
            key_id,
            wrapping_key,
        } ==> {
            &&& self matches ProvisioningState::AwaitingEvidence { session, nonce: issued }
            &&& event matches ProvisioningEvent::Evidence { report, tee_type: kind }
            &&& nonce == issued
            &&& evidence == report
            &&& tee_type == kind
            &&& key_id == session.key_id
            &&& wrapping_key == session.wrapping_key
        }
        &&& action matches ProvisioningAction::Emit(secret) ==> self.ending(event) == Ok::<
            Seq<u8>,
            AgentError,
        >(secret@)
        &&& action matches ProvisioningAction::Abort(e) ==> self.ending(event) == Err::<
            Seq<u8>,
            AgentError,
        >(e)
    }

    /// The state after a run of outcomes.
    pub open spec fn after(self, events: Seq<ProvisioningEvent>) -> ProvisioningState
        decreases events.len(),
    {
        if events.len() == 0 {
            self
        } else {
            self.next(events[0]).after(events.subrange(1, events.len() as int))
        }
    }
}

/// Begins an attempt with the wrapping key that was generated for it, or
/// with the reason why there is none. With a key, the first action is the
/// version query, and the session holds the key, its public half in base64
/// and the key identifier; without one, or with one that cannot be
/// exported, the attempt ends at once.
pub fn begin_with(key: Result<RsaKey, AgentError>, key_id: String) -> (r: (
    ProvisioningState,
    ProvisioningAction,
))
    ensures
        match key {
            Ok(pair) => if base64_fits(pair.public_der().len()) {
                &&& r.0 matches ProvisioningState::AwaitingVersion(session)
                &&& session.key == pair
                &&& session.key_id == key_id
                &&& session.wrapping_key@ == base64_text(pair.public_der())
                &&& base64_bytes(session.wrapping_key@) == Some(pair.public_der())
                &&& r.1 is QueryVersion
            } else {
                r.0 is Finished && r.1 == ProvisioningAction::Abort(AgentError::CryptoError)
            },
            Err(e) => r.0 is Finished && r.1 == ProvisioningAction::Abort(e),
        },
{
    match key {
        Ok(pair) => match pair.public_key_to_base64() {
            Ok(wrapping_key) => (
                ProvisioningState::AwaitingVersion(Session { key: pair, wrapping_key, key_id }),
                ProvisioningAction::QueryVersion,
            ),
            Err(e) => (ProvisioningState::Finished, ProvisioningAction::Abort(e)),
        },
        Err(e) => (ProvisioningState::Finished, ProvisioningAction::Abort(e)),
    }
}

/// Begins an attempt: generates its wrapping key, fresh and of 2048 bits.
/// Whatever the generator gives, the attempt either waits for the broker's
/// version, holding the key identifier and the exported public half, or has
/// ended with `CryptoError`.
pub fn begin(key_id: String) -> (r: (ProvisioningState, ProvisioningAction))
    ensures
        r.0 matches ProvisioningState::AwaitingVersion(session) ==> {
            &&& session.key_id == key_id
            &&& session.wrapping_key@ == base64_text(session.key.public_der())
            &&& r.1 is QueryVersion
        },
        !(r.0 is AwaitingVersion) ==> r.0 is Finished && r.1 == ProvisioningAction::Abort(
            AgentError::CryptoError,
        ),
{
    begin_with(generate_wrapping_key(), key_id)
}

/// Takes an attempt one step further: from the state and the outcome of the
/// pending action, to the next state and the next action.
pub fn advance(state: ProvisioningState, event: ProvisioningEvent) -> (r: (
    ProvisioningState,
    ProvisioningAction,
))
    ensures
        r.0 == state.next(event),
        state.tells(event, r.1),
{
    match state {
        ProvisioningState::AwaitingVersion(session) => match event {
            ProvisioningEvent::Version(_) => (
                ProvisioningState::AwaitingNonce(session),
                ProvisioningAction::QueryNonce,
            ),
            ProvisioningEvent::Failed(e) => (
                ProvisioningState::Finished,
                ProvisioningAction::Abort(e),
            ),
            _ => (ProvisioningState::Finished, ProvisioningAction::Abort(AgentError::BrokerError)),
        },
        ProvisioningState::AwaitingNonce(session) => match event {
            ProvisioningEvent::Nonce(nonce) => {
                let issued = nonce.clone();
                (
                    ProvisioningState::AwaitingEvidence { session, nonce },
                    ProvisioningAction::CollectEvidence { nonce: issued },
                )
            },
            ProvisioningEvent::Failed(e) => (
                ProvisioningState::Finished,
                ProvisioningAction::Abort(e),
            ),
            _ => (ProvisioningState::Finished, ProvisioningAction::Abort(AgentError::BrokerError)),
        },
        ProvisioningState::AwaitingEvidence { session, nonce } => match event {
            ProvisioningEvent::Evidence { report, tee_type } => {
                let key_id = session.key_id.clone();
                let wrapping_key = session.wrapping_key.clone();
                (
                    ProvisioningState::AwaitingSecret(session),
                    ProvisioningAction::QuerySecret {
                        nonce,
                        evidence: report,
                        tee_type,
                        key_id,
                        wrapping_key,
                    },
                )
            },
            ProvisioningEvent::Failed(e) => (
                ProvisioningState::Finished,
                ProvisioningAction::Abort(e),
            ),
            _ => (ProvisioningState::Finished, ProvisioningAction::Abort(AgentError::BrokerError)),
        },
        ProvisioningState::AwaitingSecret(session) => match event {
            ProvisioningEvent::Envelope { wrapped_key, blob, iv, tag } => {
                match release_secret(
                    &session.key,
                    wrapped_key.as_str(),
                    blob.as_str(),
                    iv.as_str(),
                    tag.as_str(),
                ) {
                    Ok(secret) => (ProvisioningState::Finished, ProvisioningAction::Emit(secret)),
                    Err(e) => (ProvisioningState::Finished, ProvisioningAction::Abort(e)),
                }
            },
            ProvisioningEvent::Failed(e) => (
                ProvisioningState::Finished,
                ProvisioningAction::Abort(e),
            ),
            _ => (ProvisioningState::Finished, ProvisioningAction::Abort(AgentError::BrokerError)),
        },
        ProvisioningState::Finished => (
            ProvisioningState::Finished,
            ProvisioningAction::Abort(AgentError::BrokerError),
        ),
    }
}

/// The steps are taken in their order, one at a time: an outcome leads to
/// the step right after the pending one, or to the end.
pub proof fn lemma_strict_order(state: ProvisioningState, event: ProvisioningEvent)
    ensures
        match state.stage() {
            Stage::Version => state.next(event).stage() == Stage::Nonce || state.next(
                event,
            ).stage() == Stage::End,
            Stage::Nonce => state.next(event).stage() == Stage::Evidence || state.next(
                event,
            ).stage() == Stage::End,
            Stage::Evidence => state.next(event).stage() == Stage::Secret || state.next(
                event,
            ).stage() == Stage::End,
            Stage::Secret => state.next(event).stage() == Stage::End,
            Stage::End => state.next(event).stage() == Stage::End,
        },
{
}

/// A failure is final: after a failed action, the nonce query for one, no
/// run of outcomes brings the attempt to collect evidence, to ask for the
/// secret, or to anything but its end.
pub proof fn lemma_failure_is_final(
    state: ProvisioningState,
    reason: AgentError,
    events: Seq<ProvisioningEvent>,
)
    ensures
        state.next(ProvisioningEvent::Failed(reason)) is Finished,
        state.next(ProvisioningEvent::Failed(reason)).after(events) is Finished,
        state.next(ProvisioningEvent::Failed(reason)).after(events).stage() == Stage::End,
        !(state is Finished) ==> state.ending(ProvisioningEvent::Failed(reason)) == Err::<
            Seq<u8>,
            AgentError,
        >(reason),
{
    lemma_finished_stays(events);
}

/// An attempt that has ended stays ended.
pub proof fn lemma_finished_stays(events: Seq<ProvisioningEvent>)
    ensures
        ProvisioningState::Finished.after(events) is Finished,
    decreases events.len(),
{
    if events.len() > 0 {
        lemma_finished_stays(events.subrange(1, events.len() as int));
    }
}

/// An envelope with a field that is not standard base64 releases nothing:
/// the attempt ends with `MalformedEnvelope`, whatever key it holds.
pub proof fn lemma_malformed_envelope_releases_nothing(
    session: Session,
    wrapped_key: String,
    blob: String,
    iv: String,
    tag: String,
)
    requires
        !envelope_decodes(wrapped_key@, blob@, iv@, tag@),
    ensures
        ProvisioningState::AwaitingSecret(session).ending(
            ProvisioningEvent::Envelope { wrapped_key, blob, iv, tag },
        ) == Err::<Seq<u8>, AgentError>(AgentError::MalformedEnvelope),
{
}

} // verus!
