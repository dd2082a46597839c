use ore_app::relay::{
    decode_reply, encode_request, invoke_signature, RelayAction, RelayError, RelayEvent,
    RelayOutcome, RelayPhase,
};

fn sent_text(action: &RelayAction) -> String {
    match action {
        RelayAction::SendToSigner(t) => t.clone(),
        other => panic!("expected a request, got {:?}", other),
    }
}

fn submitted_bytes(action: &RelayAction) -> Vec<u8> {
    match action {
        RelayAction::Submit(b) => b.clone(),
        other => panic!("expected a submission, got {:?}", other),
    }
}

#[test]
fn request_is_standard_base64() {
    assert_eq!(encode_request(&[1, 2, 3]), "AQID");
    assert_eq!(encode_request(&[0xff]), "/w==");
    assert_eq!(encode_request(&[]), "");
}

#[test]
fn reply_decodes_to_bytes() {
    assert_eq!(decode_reply("AQID"), Ok(vec![1, 2, 3]));
    assert_eq!(decode_reply("/w=="), Ok(vec![0xff]));
}

#[test]
fn invalid_reply_is_rejected() {
    assert_eq!(decode_reply("not base64!"), Err(RelayError::InvalidBase64));
    assert_eq!(decode_reply("AQJ="), Err(RelayError::InvalidBase64));
    assert_eq!(decode_reply("AQ"), Err(RelayError::InvalidBase64));
}

#[test]
fn request_round_trips() {
    let bytes: Vec<u8> = (0..=255u8).collect();
    assert_eq!(decode_reply(&encode_request(&bytes)), Ok(bytes));
}

#[test]
fn serialized_transaction_is_sent() {
    let (phase, action) = invoke_signature(Some(vec![1, 2, 3]));
    assert_eq!(phase, RelayPhase::AwaitingSignature);
    assert_eq!(sent_text(&action), "AQID");
}

#[test]
fn serialization_failure_aborts() {
    let (phase, action) = invoke_signature(None);
    assert_eq!(phase, RelayPhase::Finished(RelayOutcome::EncodeFailed));
    assert!(matches!(action, RelayAction::Idle));
}

#[test]
fn signed_reply_is_submitted() {
    let unsigned = vec![9u8, 8, 7, 6];
    let signed = vec![1u8, 9, 8, 7, 6, 5];
    let (phase, action) = invoke_signature(Some(unsigned.clone()));
    assert_eq!(sent_text(&action), encode_request(&unsigned));
    let reply = encode_request(&signed);
    let (phase, action) = phase.step(RelayEvent::Replied(Some(reply)));
    assert_eq!(phase, RelayPhase::Submitting);
    assert_eq!(submitted_bytes(&action), signed);
    let (phase, action) = phase.step(RelayEvent::LedgerAnswered(true));
    assert_eq!(phase, RelayPhase::Finished(RelayOutcome::Submitted));
    assert!(phase.is_finished());
    assert!(matches!(action, RelayAction::Idle));
}

#[test]
fn missing_reply_fails() {
    let (phase, _) = invoke_signature(Some(vec![1]));
    let (phase, _) = phase.step(RelayEvent::Replied(None));
    assert_eq!(phase, RelayPhase::Finished(RelayOutcome::ReceiveFailed));
}

#[test]
fn undecodable_reply_fails() {
    let (phase, _) = invoke_signature(Some(vec![1]));
    let (phase, action) = phase.step(RelayEvent::Replied(Some("%%%".to_string())));
    assert_eq!(phase, RelayPhase::Finished(RelayOutcome::DecodeFailed));
    assert!(matches!(action, RelayAction::Idle));
}

#[test]
fn reply_that_is_no_transaction_fails() {
    let (phase, action) = RelayPhase::AwaitingSignature.step(RelayEvent::Replied(Some("AQID".to_string())));
    assert_eq!(submitted_bytes(&action), vec![1, 2, 3]);
    let (phase, _) = phase.step(RelayEvent::Undecodable);
    assert_eq!(phase, RelayPhase::Finished(RelayOutcome::DecodeFailed));
}

#[test]
fn refused_submission_fails() {
    let (phase, _) = RelayPhase::Submitting.step(RelayEvent::LedgerAnswered(false));
    assert_eq!(phase, RelayPhase::Finished(RelayOutcome::SubmitFailed));
}

#[test]
fn out_of_order_events_change_nothing() {
    let (phase, action) = RelayPhase::Serializing.step(RelayEvent::LedgerAnswered(true));
    assert_eq!(phase, RelayPhase::Serializing);
    assert!(matches!(action, RelayAction::Idle));
    let done = RelayPhase::Finished(RelayOutcome::Submitted);
    let (phase, _) = done.step(RelayEvent::Replied(Some("AQID".to_string())));
    assert_eq!(phase, done);
    assert!(!RelayPhase::Submitting.is_finished());
}
