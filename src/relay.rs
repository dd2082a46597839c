use vstd::prelude::*;

verus! {

/// The standard, padded base64 text of a byte string.
pub uninterp spec fn base64_of(bytes: Seq<u8>) -> Seq<char>;

/// `bytes` is the one byte string whose base64 text is `text`.
pub open spec fn decodes_to(text: Seq<char>, bytes: Seq<u8>) -> bool {
    &&& base64_of(bytes) == text
    &&& forall|b: Seq<u8>| #[trigger] base64_of(b) == text ==> b == bytes
}

/// `text` is the base64 text of some byte string.
pub open spec fn is_base64(text: Seq<char>) -> bool {
    exists|b: Seq<u8>| #[trigger] base64_of(b) == text
}

#[verifier::external_type_specification]
#[verifier::external_body]
pub struct ExDecodeError(base64::DecodeError);

/// Relies on base64::encode, which writes the bytes as standard padded base64.
#[verifier::external_body]
#[allow(deprecated)]
fn base64_encode(bytes: &[u8]) -> (r: String)
    ensures
        r@ == base64_of(bytes@),
{
    base64::encode(bytes)
}

/// Relies on base64::decode, whose standard engine accepts canonical padded
/// text only: it succeeds exactly on the base64 texts of byte strings and
/// returns the byte string that was encoded.
#[verifier::external_body]
#[allow(deprecated)]
fn base64_decode(text: &str) -> (r: Result<Vec<u8>, base64::DecodeError>)
    ensures
        match r {
            Ok(v) => decodes_to(text@, v@),
            Err(_) => !is_base64(text@),
        },
{
    base64::decode(text)
}

/// Why a signer's reply could not be turned back into transaction bytes.
#[derive(Clone, Copy, Debug, PartialEq, Eq)]
pub enum RelayError {
    /// The reply is not canonical base64 text.
    InvalidBase64,
}

/// The text sent across the signing bridge for a serialized transaction.
pub fn encode_request(tx_bytes: &[u8]) -> (r: String)
    ensures
        r@ == base64_of(tx_bytes@),
{
    base64_encode(tx_bytes)
}

/// The transaction bytes carried by a signer's reply.
pub fn decode_reply(reply: &str) -> (r: Result<Vec<u8>, RelayError>)
    ensures
        match r {
            Ok(v) => decodes_to(reply@, v@),
            Err(e) => e == RelayError::InvalidBase64 && !is_base64(reply@),
        },
{
    match base64_decode(reply) {
        Ok(v) => Ok(v),
        Err(_) => Err(RelayError::InvalidBase64),
    }
}

/// Decoding the request text of a transaction gives back its bytes.
pub proof fn lemma_request_round_trip(tx_bytes: Seq<u8>, reply: Seq<char>, r: Result<Vec<u8>, RelayError>)
    requires
        reply == base64_of(tx_bytes),
        match r {
            Ok(v) => decodes_to(reply, v@),
            Err(e) => e == RelayError::InvalidBase64 && !is_base64(reply),
        },
    ensures
        r matches Ok(v) && v@ == tx_bytes,
{
}

/// How a relay run ended.
#[derive(Clone, Copy, Debug, PartialEq, Eq)]
pub enum RelayOutcome {
    /// The ledger accepted the signed transaction.
    Submitted,
    /// The transaction could not be serialized; nothing was sent.
    EncodeFailed,
    /// The signer's reply did not arrive or was not text.
    ReceiveFailed,
    /// The reply was not base64, or its bytes were not a transaction.
    DecodeFailed,
    /// The ledger refused the signed transaction.
    SubmitFailed,
}

/// Where a relay run stands.
#[derive(Clone, Copy, Debug, PartialEq, Eq)]
pub enum RelayPhase {
    /// Waiting for the transaction's serialized bytes.
    Serializing,
    /// The request went out; waiting for the signer's reply.
    AwaitingSignature,
    /// The signed transaction was handed to the ledger; waiting for its answer.
    Submitting,
    Finished(RelayOutcome),
}

/// What the outside world reports back to the relay.
#[derive(Clone, Debug)]
pub enum RelayEvent {
    /// The transaction's binary encoding, or `None` when it failed.
    Serialized(Option<Vec<u8>>),
    /// The signer's textual reply, or `None` when the bridge gave none.
    Replied(Option<String>),
    /// The signed bytes did not decode into a transaction.
    Undecodable,
    /// The ledger accepted (`true`) or refused (`false`) the transaction.
    LedgerAnswered(bool),
}

/// What the relay asks the outside world to do next.
#[derive(Clone, Debug)]
pub enum RelayAction {
    /// Send this text to the signer.
    SendToSigner(String),
    /// Decode these signed bytes into a transaction and submit it.
    Submit(Vec<u8>),
    /// Nothing to do.
    Idle,
}

/// One step of the relay: the next phase and action for `event` in `phase`.
/// Events that do not belong to the phase change nothing.
pub open spec fn relay_step_spec(phase: RelayPhase, event: RelayEvent, next: RelayPhase, action: RelayAction) -> bool {
    match (phase, event) {
        (RelayPhase::Serializing, RelayEvent::Serialized(Some(b))) =>
            next == RelayPhase::AwaitingSignature
            && (action matches RelayAction::SendToSigner(t) && t@ == base64_of(b@)),
        (RelayPhase::Serializing, RelayEvent::Serialized(None)) =>
            next == RelayPhase::Finished(RelayOutcome::EncodeFailed) && action is Idle,
        (RelayPhase::AwaitingSignature, RelayEvent::Replied(None)) =>
            next == RelayPhase::Finished(RelayOutcome::ReceiveFailed) && action is Idle,
        (RelayPhase::AwaitingSignature, RelayEvent::Replied(Some(t))) =>
            if is_base64(t@) {
                next == RelayPhase::Submitting
                && (action matches RelayAction::Submit(v) && decodes_to(t@, v@))
            } else {
                next == RelayPhase::Finished(RelayOutcome::DecodeFailed) && action is Idle
            },
        (RelayPhase::Submitting, RelayEvent::Undecodable) =>
            next == RelayPhase::Finished(RelayOutcome::DecodeFailed) && action is Idle,
        (RelayPhase::Submitting, RelayEvent::LedgerAnswered(ok)) =>
            next == RelayPhase::Finished(
                if ok { RelayOutcome::Submitted } else { RelayOutcome::SubmitFailed },
            ) && action is Idle,
        _ => next == phase && action is Idle,
    }
}

impl RelayPhase {
    /// Advances the relay by one event.
    pub fn step(self, event: RelayEvent) -> (r: (RelayPhase, RelayAction))
        ensures
            relay_step_spec(self, event, r.0, r.1),
    {
        match (self, event) {
            (RelayPhase::Serializing, RelayEvent::Serialized(Some(b))) => {
                (RelayPhase::AwaitingSignature, RelayAction::SendToSigner(encode_request(b.as_slice())))
            },
            (RelayPhase::Serializing, RelayEvent::Serialized(None)) => {
                (RelayPhase::Finished(RelayOutcome::EncodeFailed), RelayAction::Idle)
            },
            (RelayPhase::AwaitingSignature, RelayEvent::Replied(None)) => {
                (RelayPhase::Finished(RelayOutcome::ReceiveFailed), RelayAction::Idle)
            },
            (RelayPhase::AwaitingSignature, RelayEvent::Replied(Some(t))) => {
                match decode_reply(t.as_str()) {
                    Ok(v) => (RelayPhase::Submitting, RelayAction::Submit(v)),
                    Err(_) => (RelayPhase::Finished(RelayOutcome::DecodeFailed), RelayAction::Idle),
                }
            },
            (RelayPhase::Submitting, RelayEvent::Undecodable) => {
                (RelayPhase::Finished(RelayOutcome::DecodeFailed), RelayAction::Idle)
            },
            (RelayPhase::Submitting, RelayEvent::LedgerAnswered(ok)) => {
                let outcome = if ok {
                    RelayOutcome::Submitted
                } else {
                    RelayOutcome::SubmitFailed
                };
                (RelayPhase::Finished(outcome), RelayAction::Idle)
            },
            (phase, _) => (phase, RelayAction::Idle),
        }
    }

    pub fn is_finished(&self) -> (r: bool)
        ensures
            r == (*self is Finished),
    {
        matches!(self, RelayPhase::Finished(_))
    }
}

/// Starts a relay run for a transaction whose serialization gave `tx_bytes`.
pub fn invoke_signature(tx_bytes: Option<Vec<u8>>) -> (r: (RelayPhase, RelayAction))
    ensures
        relay_step_spec(RelayPhase::Serializing, RelayEvent::Serialized(tx_bytes), r.0, r.1),
{
    RelayPhase::Serializing.step(RelayEvent::Serialized(tx_bytes))
}

/// A serialized transaction goes to the signer as the base64 text of its
/// bytes, and a reply that is the base64 text of a signed transaction leads
/// to the submission of exactly the signed bytes.
pub proof fn lemma_relay_round_trip(
    tx_bytes: Vec<u8>,
    sent: (RelayPhase, RelayAction),
    reply: String,
    signed: Seq<u8>,
    received: (RelayPhase, RelayAction),
)
    requires
        relay_step_spec(RelayPhase::Serializing, RelayEvent::Serialized(Some(tx_bytes)), sent.0, sent.1),
        reply@ == base64_of(signed),
        relay_step_spec(sent.0, RelayEvent::Replied(Some(reply)), received.0, received.1),
    ensures
        sent.1 matches RelayAction::SendToSigner(t) && t@ == base64_of(tx_bytes@),
        received.0 == RelayPhase::Submitting,
        received.1 matches RelayAction::Submit(v) && v@ == signed,
{
    assert(base64_of(signed) == reply@);
}

/// A submission is asked for only on the signer's reply, and only while the
/// relay awaits it; the relay then waits on the ledger, so one run submits at
/// most once.
pub proof fn lemma_submit_follows_reply(
    phase: RelayPhase,
    event: RelayEvent,
    next: RelayPhase,
    action: RelayAction,
)
    requires
        relay_step_spec(phase, event, next, action),
        action is Submit,
    ensures
        phase == RelayPhase::AwaitingSignature,
        event is Replied,
        next == RelayPhase::Submitting,
{
}

} // verus!
