use cbc::cipher::block_padding::Pkcs7;
use cbc::cipher::{BlockEncryptMut, KeyIvInit};
use plume_auth::error::AuthError;
use plume_auth::handshake::{begin, conclude, step, Action, Event, Stage};
use plume_auth::keys::create_session_key;
use sha2::Sha256;
use srp::client::SrpClient;
use srp::groups::G_2048;
use srp::server::SrpServer;

const USER: &str = "user@example.com";
const PASSWORD: &str = "correct-password";
const SALT: [u8; 16] = [5u8; 16];
const CLIENT_PRIVATE: [u8; 32] = [11u8; 32];
const SERVER_PRIVATE: [u8; 32] = [23u8; 32];
const METADATA: &[u8] = b"<dict><key>adsid</key><string>000-1</string></dict>";

struct Provider {
    verifier: Vec<u8>,
}

fn encrypt_for(secret: &[u8], plain: &[u8]) -> Vec<u8> {
    let key = create_session_key(secret, "extra data key:");
    let iv = create_session_key(secret, "extra data iv:");
    cbc::Encryptor::<aes::Aes256>::new_from_slices(&key, &iv[..16])
        .unwrap()
        .encrypt_padded_vec_mut::<Pkcs7>(plain)
}

fn provider() -> Provider {
    let client = SrpClient::<Sha256>::new(&G_2048);
    Provider { verifier: client.compute_verifier(USER.as_bytes(), PASSWORD.as_bytes(), &SALT) }
}

fn challenge(p: &Provider) -> Event {
    let server = SrpServer::<Sha256>::new(&G_2048);
    Event::Challenge {
        salt: SALT.to_vec(),
        server_public: server.compute_public_ephemeral(&SERVER_PRIVATE, &p.verifier),
    }
}

fn proof_reply(p: &Provider, client_public: &[u8], code_required: bool) -> Event {
    let server = SrpServer::<Sha256>::new(&G_2048);
    let v = server.process_reply(&SERVER_PRIVATE, &p.verifier, client_public).unwrap();
    Event::ProofReply {
        server_proof: v.proof().to_vec(),
        payload: encrypt_for(v.key(), METADATA),
        code_required,
    }
}

fn public_of(action: &Action) -> Vec<u8> {
    match action {
        Action::SendPublic(p) => p.clone(),
        other => panic!("unexpected action {:?}", other),
    }
}

fn run(password: &str, code_required: bool) -> (Stage, Action, Vec<u8>) {
    let p = provider();
    let (stage, action) = begin(&CLIENT_PRIVATE);
    assert!(matches!(stage, Stage::AwaitingChallenge));
    let client_public = public_of(&action);
    let (stage, action) = step(stage, challenge(&p), USER, password, &CLIENT_PRIVATE);
    assert!(matches!(stage, Stage::AwaitingProof { .. }));
    let proof = match action {
        Action::SendProof(m) => m,
        other => panic!("unexpected action {:?}", other),
    };
    let (stage, action) =
        step(stage, proof_reply(&p, &client_public, code_required), USER, password, &CLIENT_PRIVATE);
    (stage, action, proof)
}

#[test]
fn begin_sends_the_public_value() {
    let (_, action) = begin(&CLIENT_PRIVATE);
    let expected = SrpClient::<Sha256>::new(&G_2048).compute_public_ephemeral(&CLIENT_PRIVATE);
    assert_eq!(public_of(&action), expected);
    assert_ne!(public_of(&action), CLIENT_PRIVATE.to_vec());
}

#[test]
fn correct_password_establishes_a_session() {
    let (stage, action, proof) = run(PASSWORD, false);
    let p = provider();
    let server = SrpServer::<Sha256>::new(&G_2048);
    let client_public = SrpClient::<Sha256>::new(&G_2048).compute_public_ephemeral(&CLIENT_PRIVATE);
    let v = server.process_reply(&SERVER_PRIVATE, &p.verifier, &client_public).unwrap();
    assert!(v.verify_client(&proof).is_ok());
    match stage {
        Stage::Established { secret, metadata } => {
            assert_eq!(secret, v.key().to_vec());
            assert_eq!(metadata, METADATA.to_vec());
        }
        other => panic!("unexpected stage {:?}", other),
    }
    assert!(matches!(action, Action::Finish));
}

#[test]
fn wrong_password_is_a_proof_error() {
    let (stage, action, proof) = run("wrong", false);
    let p = provider();
    let server = SrpServer::<Sha256>::new(&G_2048);
    let client_public = SrpClient::<Sha256>::new(&G_2048).compute_public_ephemeral(&CLIENT_PRIVATE);
    let v = server.process_reply(&SERVER_PRIVATE, &p.verifier, &client_public).unwrap();
    assert!(v.verify_client(&proof).is_err());
    assert!(matches!(stage, Stage::Failed(AuthError::AuthProof)));
    assert!(matches!(action, Action::Abort));
}

#[test]
fn one_time_code_is_asked_for_and_sent() {
    let (stage, action, _) = run(PASSWORD, true);
    assert!(matches!(stage, Stage::AwaitingCode { .. }));
    assert!(matches!(action, Action::PromptCode));
    let entered = Event::CodeEntered { code: "123456".to_string() };
    let (stage, action) = step(stage, entered, USER, PASSWORD, &CLIENT_PRIVATE);
    assert!(matches!(stage, Stage::AwaitingCodeResult { .. }));
    match action {
        Action::SubmitCode(code) => assert_eq!(code, "123456"),
        other => panic!("unexpected action {:?}", other),
    }
    let (done, action) = step(stage.clone(), Event::CodeAccepted, USER, PASSWORD, &CLIENT_PRIVATE);
    match done {
        Stage::Established { metadata, .. } => assert_eq!(metadata, METADATA.to_vec()),
        other => panic!("unexpected stage {:?}", other),
    }
    assert!(matches!(action, Action::Finish));
    let (refused, action) = step(stage, Event::CodeRejected, USER, PASSWORD, &CLIENT_PRIVATE);
    assert!(matches!(refused, Stage::Failed(AuthError::AuthOneTimeCode)));
    assert!(matches!(action, Action::Abort));
}

#[test]
fn wrong_password_after_a_code_is_still_a_proof_error() {
    let (stage, _, _) = run("wrong", true);
    let entered = Event::CodeEntered { code: "123456".to_string() };
    let (stage, _) = step(stage, entered, USER, "wrong", &CLIENT_PRIVATE);
    let (stage, _) = step(stage, Event::CodeAccepted, USER, "wrong", &CLIENT_PRIVATE);
    assert!(matches!(stage, Stage::Failed(AuthError::AuthProof)));
}

#[test]
fn transport_and_provider_errors_end_the_handshake() {
    let (stage, _) = begin(&CLIENT_PRIVATE);
    let (failed, action) =
        step(stage.clone(), Event::TransportFailed, USER, PASSWORD, &CLIENT_PRIVATE);
    assert!(matches!(failed, Stage::Failed(AuthError::Transport)));
    assert!(matches!(action, Action::Abort));
    let rejected = Event::Rejected(-20101, "Bad login".to_string());
    let (failed, _) = step(stage, rejected, USER, PASSWORD, &CLIENT_PRIVATE);
    match failed {
        Stage::Failed(e) => {
            assert_eq!(e, AuthError::AuthSrpWithMessage(-20101, "Bad login".to_string()))
        }
        other => panic!("unexpected stage {:?}", other),
    }
}

#[test]
fn events_out_of_turn_end_the_handshake() {
    let (stage, _) = begin(&CLIENT_PRIVATE);
    for event in [
        Event::Malformed,
        Event::ProofReply { server_proof: vec![1], payload: vec![2], code_required: false },
        Event::CodeEntered { code: "1".to_string() },
        Event::CodeAccepted,
        Event::CodeRejected,
    ] {
        let (next, action) = step(stage.clone(), event, USER, PASSWORD, &CLIENT_PRIVATE);
        assert!(matches!(next, Stage::Failed(AuthError::Parse)));
        assert!(matches!(action, Action::Abort));
    }
    let (stage, _, _) = run(PASSWORD, true);
    let (next, _) = step(stage, Event::CodeAccepted, USER, PASSWORD, &CLIENT_PRIVATE);
    assert!(matches!(next, Stage::Failed(AuthError::Parse)));
}

#[test]
fn inadmissible_server_value_ends_the_handshake() {
    let (stage, _) = begin(&CLIENT_PRIVATE);
    let event = Event::Challenge { salt: SALT.to_vec(), server_public: vec![0] };
    let (next, action) = step(stage, event, USER, PASSWORD, &CLIENT_PRIVATE);
    assert!(matches!(next, Stage::Failed(AuthError::Parse)));
    assert!(matches!(action, Action::Abort));
}

#[test]
fn final_stages_absorb_events() {
    let (stage, _, _) = run(PASSWORD, false);
    let (next, action) = step(stage, Event::TransportFailed, USER, PASSWORD, &CLIENT_PRIVATE);
    assert!(matches!(next, Stage::Established { .. }));
    assert!(matches!(action, Action::Idle));
    let failed = Stage::Failed(AuthError::AuthProof);
    let (next, action) = step(failed, challenge(&provider()), USER, PASSWORD, &CLIENT_PRIVATE);
    assert!(matches!(next, Stage::Failed(AuthError::AuthProof)));
    assert!(matches!(action, Action::Idle));
}

#[test]
fn tampered_server_proof_is_a_proof_error() {
    let p = provider();
    let (stage, action) = begin(&CLIENT_PRIVATE);
    let client_public = public_of(&action);
    let (stage, _) = step(stage, challenge(&p), USER, PASSWORD, &CLIENT_PRIVATE);
    let reply = match proof_reply(&p, &client_public, false) {
        Event::ProofReply { mut server_proof, payload, code_required } => {
            server_proof[0] ^= 1;
            Event::ProofReply { server_proof, payload, code_required }
        }
        other => other,
    };
    let (next, _) = step(stage, reply, USER, PASSWORD, &CLIENT_PRIVATE);
    assert!(matches!(next, Stage::Failed(AuthError::AuthProof)));
}

#[test]
fn undecryptable_payload_is_a_decryption_error() {
    let p = provider();
    let (stage, action) = begin(&CLIENT_PRIVATE);
    let client_public = public_of(&action);
    let (stage, _) = step(stage, challenge(&p), USER, PASSWORD, &CLIENT_PRIVATE);
    let reply = match proof_reply(&p, &client_public, false) {
        Event::ProofReply { server_proof, mut payload, code_required } => {
            payload.pop();
            Event::ProofReply { server_proof, payload, code_required }
        }
        other => other,
    };
    let (next, action) = step(stage, reply, USER, PASSWORD, &CLIENT_PRIVATE);
    assert!(matches!(next, Stage::Failed(AuthError::Decryption)));
    assert!(matches!(action, Action::Abort));
}

#[test]
fn conclude_by_acceptance() {
    let key = vec![4u8; 256];
    let payload = encrypt_for(&key, b"hello");
    let (stage, action) = conclude(false, key.clone(), &payload);
    assert!(matches!(stage, Stage::Failed(AuthError::AuthProof)));
    assert!(matches!(action, Action::Abort));
    let (stage, action) = conclude(true, key.clone(), &payload);
    match stage {
        Stage::Established { secret, metadata } => {
            assert_eq!(secret, key);
            assert_eq!(metadata, b"hello".to_vec());
        }
        other => panic!("unexpected stage {:?}", other),
    }
    assert!(matches!(action, Action::Finish));
    let (stage, _) = conclude(true, key, &payload[..7]);
    assert!(matches!(stage, Stage::Failed(AuthError::Decryption)));
}
