use plume_auth::error::AuthError;
use plume_auth::handshake::Event;
use plume_auth::replies::{challenge_event, code_event, code_required, failure_event, proof_event};

fn data(bytes: &[u8]) -> plist::Value {
    plist::Value::Data(bytes.to_vec())
}

fn text(s: &str) -> plist::Value {
    plist::Value::String(s.to_string())
}

fn status_with(kind: Option<&str>) -> plist::Dictionary {
    let mut status = plist::Dictionary::new();
    status.insert("ec".to_string(), plist::Value::Integer(0i64.into()));
    if let Some(kind) = kind {
        status.insert("au".to_string(), text(kind));
    }
    let mut record = plist::Dictionary::new();
    record.insert("Status".to_string(), plist::Value::Dictionary(status));
    record
}

#[test]
fn code_is_required_for_the_two_kinds() {
    assert!(code_required(&status_with(Some("trustedDeviceSecondaryAuth"))));
    assert!(code_required(&status_with(Some("secondaryAuth"))));
    assert!(!code_required(&status_with(Some("other"))));
    assert!(!code_required(&status_with(Some("SecondaryAuth"))));
    assert!(!code_required(&status_with(None)));
    assert!(!code_required(&plist::Dictionary::new()));
    let mut top = plist::Dictionary::new();
    top.insert("au".to_string(), text("secondaryAuth"));
    assert!(!code_required(&top));
    let mut odd = plist::Dictionary::new();
    odd.insert("Status".to_string(), text("secondaryAuth"));
    assert!(!code_required(&odd));
}

#[test]
fn failures_become_events() {
    assert!(matches!(failure_event(AuthError::Transport), Event::TransportFailed));
    assert!(matches!(failure_event(AuthError::Parse), Event::Malformed));
    assert!(matches!(failure_event(AuthError::Decryption), Event::Malformed));
    match failure_event(AuthError::AuthSrpWithMessage(-20101, "Bad login".to_string())) {
        Event::Rejected(code, message) => {
            assert_eq!(code, -20101);
            assert_eq!(message, "Bad login");
        }
        other => panic!("unexpected event {:?}", other),
    }
}

#[test]
fn challenge_needs_salt_and_public_value() {
    let mut record = plist::Dictionary::new();
    record.insert("s".to_string(), data(&[1, 2, 3]));
    assert!(matches!(challenge_event(Ok(record.clone())), Event::Malformed));
    record.insert("B".to_string(), data(&[9, 8]));
    match challenge_event(Ok(record.clone())) {
        Event::Challenge { salt, server_public } => {
            assert_eq!(salt, vec![1, 2, 3]);
            assert_eq!(server_public, vec![9, 8]);
        }
        other => panic!("unexpected event {:?}", other),
    }
    record.insert("s".to_string(), text("not data"));
    assert!(matches!(challenge_event(Ok(record)), Event::Malformed));
    assert!(matches!(challenge_event(Err(AuthError::Transport)), Event::TransportFailed));
    assert!(matches!(challenge_event(Err(AuthError::Parse)), Event::Malformed));
    assert!(matches!(
        challenge_event(Err(AuthError::AuthSrpWithMessage(1, "x".to_string()))),
        Event::Rejected(1, _)
    ));
}

#[test]
fn proof_reply_carries_proof_payload_and_code_flag() {
    let mut record = status_with(Some("secondaryAuth"));
    record.insert("M2".to_string(), data(&[7; 32]));
    assert!(matches!(proof_event(Ok(record.clone())), Event::Malformed));
    record.insert("spd".to_string(), data(&[5; 16]));
    match proof_event(Ok(record)) {
        Event::ProofReply { server_proof, payload, code_required } => {
            assert_eq!(server_proof, vec![7; 32]);
            assert_eq!(payload, vec![5; 16]);
            assert!(code_required);
        }
        other => panic!("unexpected event {:?}", other),
    }
    let mut plain = status_with(None);
    plain.insert("M2".to_string(), data(&[1]));
    plain.insert("spd".to_string(), data(&[]));
    match proof_event(Ok(plain)) {
        Event::ProofReply { server_proof, payload, code_required } => {
            assert_eq!(server_proof, vec![1]);
            assert!(payload.is_empty());
            assert!(!code_required);
        }
        other => panic!("unexpected event {:?}", other),
    }
    assert!(matches!(proof_event(Err(AuthError::Transport)), Event::TransportFailed));
}

#[test]
fn code_answers() {
    assert!(matches!(code_event(Ok(plist::Dictionary::new())), Event::CodeAccepted));
    assert!(matches!(
        code_event(Err(AuthError::AuthSrpWithMessage(-21669, "Incorrect".to_string()))),
        Event::CodeRejected
    ));
    assert!(matches!(code_event(Err(AuthError::Transport)), Event::TransportFailed));
    assert!(matches!(code_event(Err(AuthError::Parse)), Event::Malformed));
}
