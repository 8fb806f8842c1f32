//! The key-agreement handshake: what to send next, and what each answer of
//! the provider leads to.
use vstd::prelude::*;
use vstd::string::StringSliceAdditionalSpecFns;
use sha2::Sha256;
use srp::client::SrpClient;
use srp::groups::G_2048;
use crate::error::AuthError;
use crate::keys::{cbc_plaintext, decrypt_cbc, payload_iv, payload_key};

verus! {

/// The public value that belongs to a private one in the 2048-bit group.
pub uninterp spec fn srp_public(private: Seq<u8>) -> Seq<u8>;

/// The client proof and the shared key that the client computes from its
/// private value, the credential, the salt and the server's public value;
/// nothing where the server's public value is not admissible.
pub uninterp spec fn srp_agreement(
    private: Seq<u8>,
    username: Seq<u8>,
    password: Seq<u8>,
    salt: Seq<u8>,
    server_public: Seq<u8>,
) -> Option<(Seq<u8>, Seq<u8>)>;

/// Whether `reply` is the server proof that the client expects after the
/// same computation.
pub uninterp spec fn srp_server_accepted(
    private: Seq<u8>,
    username: Seq<u8>,
    password: Seq<u8>,
    salt: Seq<u8>,
    server_public: Seq<u8>,
    reply: Seq<u8>,
) -> bool;

/// What the client holds once it has processed the server's challenge.
pub struct Agreement {
    /// The proof to send to the server.
    pub proof: Vec<u8>,
    /// The shared key.
    pub key: Vec<u8>,
}

/// Calls `SrpClient::<Sha256>::compute_public_ephemeral` in the group
/// `G_2048`. The value depends on the private value alone.
#[verifier::external_body]
fn public_ephemeral(private: &[u8]) -> (r: Vec<u8>)
    ensures
        r@ == srp_public(private@),
{
    SrpClient::<Sha256>::new(&G_2048).compute_public_ephemeral(private)
}

/// Calls `SrpClient::<Sha256>::process_reply` in the group `G_2048` and
/// copies the proof and the key out of the verifier it returns. The outcome
/// depends on the five arguments alone.
#[verifier::external_body]
fn agree(private: &[u8], username: &[u8], password: &[u8], salt: &[u8], server_public: &[u8]) -> (r:
    Option<Agreement>)
    ensures
        match r {
            Some(a) => srp_agreement(private@, username@, password@, salt@, server_public@)
                == Some((a.proof@, a.key@)),
            None => srp_agreement(private@, username@, password@, salt@, server_public@) is None,
        },
{
    match SrpClient::<Sha256>::new(&G_2048).process_reply(private, username, password, salt, server_public) {
        Ok(v) => Some(Agreement { proof: v.proof().to_vec(), key: v.key().to_vec() }),
        Err(_) => None,
    }
}

/// Calls `SrpClient::<Sha256>::process_reply` as `agree` does, then
/// `SrpClientVerifier::verify_server` on the reply, which compares it with
/// the proof that the client expects. An inadmissible public value counts as
/// not accepted.
#[verifier::external_body]
fn server_accepted(
    private: &[u8],
    username: &[u8],
    password: &[u8],
    salt: &[u8],
    server_public: &[u8],
    reply: &[u8],
) -> (r: bool)
    ensures
        r == srp_server_accepted(
            private@,
            username@,
            password@,
            salt@,
            server_public@,
            reply@,
        ),
{
    match SrpClient::<Sha256>::new(&G_2048).process_reply(private, username, password, salt, server_public) {
        Ok(v) => v.verify_server(reply).is_ok(),
        Err(_) => false,
    }
}

/// Where a handshake stands.
#[derive(Debug, Clone)]
pub enum Stage {
    /// The public value was sent; the challenge is awaited.
    AwaitingChallenge,
    /// The client proof was sent; the server's proof is awaited.
    AwaitingProof { salt: Vec<u8>, server_public: Vec<u8>, key: Vec<u8> },
    /// The provider wants a one-time code; the caller was asked for it.
    AwaitingCode {
        salt: Vec<u8>,
        server_public: Vec<u8>,
        key: Vec<u8>,
        server_proof: Vec<u8>,
        payload: Vec<u8>,
    },
    /// The one-time code was sent; the provider's word on it is awaited.
    AwaitingCodeResult {
        salt: Vec<u8>,
        server_public: Vec<u8>,
        key: Vec<u8>,
        server_proof: Vec<u8>,
        payload: Vec<u8>,
    },
    /// The server's proof was verified and the payload decrypted.
    Established { secret: Vec<u8>, metadata: Vec<u8> },
    /// The handshake failed; nothing of it is usable.
    Failed(AuthError),
}

/// What the provider, the transport or the caller reports.
#[derive(Debug, Clone)]
pub enum Event {
    /// The provider's challenge.
    Challenge { salt: Vec<u8>, server_public: Vec<u8> },
    /// The provider's answer to the client proof.
    ProofReply { server_proof: Vec<u8>, payload: Vec<u8>, code_required: bool },
    /// The caller entered a one-time code.
    CodeEntered { code: String },
    /// The provider accepted the one-time code.
    CodeAccepted,
    /// The provider refused the one-time code.
    CodeRejected,
    /// The provider reported an error.
    Rejected(i64, String),
    /// The provider answered in a shape that could not be read.
    Malformed,
    /// The provider could not be reached.
    TransportFailed,
}

/// What the caller does next.
#[derive(Debug, Clone)]
pub enum Action {
    /// Send the public value to open the handshake.
    SendPublic(Vec<u8>),
    /// Send the client proof.
    SendProof(Vec<u8>),
    /// Ask the user for a one-time code.
    PromptCode,
    /// Send the one-time code.
    SubmitCode(String),
    /// The session is established.
    Finish,
    /// The handshake is over without a session.
    Abort,
    /// Nothing: the handshake had ended before.
    Idle,
}

/// The stage is final: no event moves it.
pub open spec fn is_final(stage: Stage) -> bool {
    stage is Established || stage is Failed
}

/// What ends a handshake whose server proof was or was not accepted: a
/// refused proof is a proof error and leaves the payload untouched; after an
/// accepted one the payload is decrypted under the keys of the shared key.
pub open spec fn concluded(accepted: bool, key: Seq<u8>, payload: Seq<u8>, next: Stage) -> bool {
    if !accepted {
        next == Stage::Failed(AuthError::AuthProof)
    } else {
        match cbc_plaintext(payload_key(key), payload_iv(key), payload) {
            Some(plain) => next matches Stage::Established { secret, metadata } && secret@ == key
                && metadata@ == plain,
            None => next == Stage::Failed(AuthError::Decryption),
        }
    }
}

/// Ends a handshake once it is known whether the server's proof was
/// accepted.
pub fn conclude(accepted: bool, key: Vec<u8>, payload: &[u8]) -> (r: (Stage, Action))
    ensures
        concluded(accepted, key@, payload@, r.0),
        r.0 is Established || r.0 is Failed,
        r.0 is Established ==> r.1 is Finish,
        r.0 is Failed ==> r.1 is Abort,
{
    if !accepted {
        return (Stage::Failed(AuthError::AuthProof), Action::Abort);
    }
    match decrypt_cbc(key.as_slice(), payload) {
        Ok(metadata) => (Stage::Established { secret: key, metadata }, Action::Finish),
        Err(_) => (Stage::Failed(AuthError::Decryption), Action::Abort),
    }
}

/// Opens a handshake: the public value of `private` is to be sent.
pub fn begin(private: &[u8]) -> (r: (Stage, Action))
    ensures
        r.0 is AwaitingChallenge,
        r.1 matches Action::SendPublic(p) && p@ == srp_public(private@),
{
    (Stage::AwaitingChallenge, Action::SendPublic(public_ephemeral(private)))
}

/// The step that a challenge leads to.
pub open spec fn challenge_step(
    username: &str,
    password: &str,
    private: Seq<u8>,
    salt: Seq<u8>,
    server_public: Seq<u8>,
    next: Stage,
    action: Action,
) -> bool {
    match srp_agreement(
        private,
        username.spec_bytes(),
        password.spec_bytes(),
        salt,
        server_public,
    ) {
        Some((proof, key)) => {
            &&& next matches Stage::AwaitingProof { salt: s, server_public: b, key: k }
            &&& s@ == salt && b@ == server_public && k@ == key
            &&& action matches Action::SendProof(p) && p@ == proof
        },
        None => next == Stage::Failed(AuthError::Parse) && action is Abort,
    }
}

/// The step that ends the handshake with the values that a stage kept.
pub open spec fn conclusion_step(
    username: &str,
    password: &str,
    private: Seq<u8>,
    salt: Seq<u8>,
    server_public: Seq<u8>,
    key: Seq<u8>,
    server_proof: Seq<u8>,
    payload: Seq<u8>,
    next: Stage,
    action: Action,
) -> bool {
    &&& if next is Established {
        action is Finish
    } else {
        action is Abort
    }
    &&& concluded(
        srp_server_accepted(
            private,
            username.spec_bytes(),
            password.spec_bytes(),
            salt,
            server_public,
            server_proof,
        ),
        key,
        payload,
        next,
    )
}

/// An answer that cannot be read, or an event that does not belong to the
/// stage, ends the handshake with a parse error.
pub open spec fn out_of_turn(next: Stage, action: Action) -> bool {
    next == Stage::Failed(AuthError::Parse) && action is Abort
}

/// What `step` does, stage by stage and event by event.
pub open spec fn step_ok(
    stage: Stage,
    event: Event,
    username: &str,
    password: &str,
    private: Seq<u8>,
    next: Stage,
    action: Action,
) -> bool {
    if is_final(stage) {
        next == stage && action is Idle
    } else {
        match event {
            Event::TransportFailed => next == Stage::Failed(AuthError::Transport)
                && action is Abort,
            Event::Malformed => out_of_turn(next, action),
            Event::Rejected(code, message) => next matches Stage::Failed(
                AuthError::AuthSrpWithMessage(c, m),
            ) && c == code && m@ == message@ && action is Abort,
            Event::Challenge { salt, server_public } => match stage {
                Stage::AwaitingChallenge => challenge_step(
                    username,
                    password,
                    private,
                    salt@,
                    server_public@,
                    next,
                    action,
                ),
                _ => out_of_turn(next, action),
            },
            Event::ProofReply { server_proof, payload, code_required } => match stage {
                Stage::AwaitingProof { salt, server_public, key } => if code_required {
                    &&& next matches Stage::AwaitingCode {
                        salt: s,
                        server_public: b,
                        key: k,
                        server_proof: m,
                        payload: p,
                    }
                    &&& s@ == salt@ && b@ == server_public@ && k@ == key@ && m@ == server_proof@
                        && p@ == payload@
                    &&& action is PromptCode
                } else {
                    conclusion_step(
                        username,
                        password,
                        private,
                        salt@,
                        server_public@,
                        key@,
                        server_proof@,
                        payload@,
                        next,
                        action,
                    )
                },
                _ => out_of_turn(next, action),
            },
            Event::CodeEntered { code } => match stage {
                Stage::AwaitingCode { salt, server_public, key, server_proof, payload } => {
                    &&& next matches Stage::AwaitingCodeResult {
                        salt: s,
                        server_public: b,
                        key: k,
                        server_proof: m,
                        payload: p,
                    }
                    &&& s@ == salt@ && b@ == server_public@ && k@ == key@ && m@ == server_proof@
                        && p@ == payload@
                    &&& action matches Action::SubmitCode(c) && c@ == code@
                },
                _ => out_of_turn(next, action),
            },
            Event::CodeAccepted => match stage {
                Stage::AwaitingCodeResult {
                    salt,
                    server_public,
                    key,
                    server_proof,
                    payload,
                } => conclusion_step(
                    username,
                    password,
                    private,
                    salt@,
                    server_public@,
                    key@,
                    server_proof@,
                    payload@,
                    next,
                    action,
                ),
                _ => out_of_turn(next, action),
            },
            Event::CodeRejected => match stage {
                Stage::AwaitingCodeResult { .. } => next == Stage::Failed(
                    AuthError::AuthOneTimeCode,
                ) && action is Abort,
                _ => out_of_turn(next, action),
            },
        }
    }
}

/// Takes the handshake one step on: from where it stands and what was
/// reported to where it stands next and what is to be done.
pub fn step(stage: Stage, event: Event, username: &str, password: &str, private: &[u8]) -> (r: (
    Stage,
    Action,
))
    ensures
        step_ok(stage, event, username, password, private@, r.0, r.1),
{
    match stage {
        Stage::Established { secret, metadata } => {
            return (Stage::Established { secret, metadata }, Action::Idle);
        },
        Stage::Failed(e) => {
            return (Stage::Failed(e), Action::Idle);
        },
        _ => {},
    }
    match event {
        Event::TransportFailed => (Stage::Failed(AuthError::Transport), Action::Abort),
        Event::Malformed => (Stage::Failed(AuthError::Parse), Action::Abort),
        Event::Rejected(code, message) => (
            Stage::Failed(AuthError::AuthSrpWithMessage(code, message)),
            Action::Abort,
        ),
        Event::Challenge { salt, server_public } => match stage {
            Stage::AwaitingChallenge => {
                match agree(
                    private,
                    username.as_bytes(),
                    password.as_bytes(),
                    salt.as_slice(),
                    server_public.as_slice(),
                ) {
                    Some(agreement) => (
                        Stage::AwaitingProof { salt, server_public, key: agreement.key },
                        Action::SendProof(agreement.proof),
                    ),
                    None => (Stage::Failed(AuthError::Parse), Action::Abort),
                }
            },
            _ => (Stage::Failed(AuthError::Parse), Action::Abort),
        },
        Event::ProofReply { server_proof, payload, code_required } => match stage {
            Stage::AwaitingProof { salt, server_public, key } => {
                if code_required {
                    (
                        Stage::AwaitingCode { salt, server_public, key, server_proof, payload },
                        Action::PromptCode,
                    )
                } else {
                    let accepted = server_accepted(
                        private,
                        username.as_bytes(),
                        password.as_bytes(),
                        salt.as_slice(),
                        server_public.as_slice(),
                        server_proof.as_slice(),
                    );
                    conclude(accepted, key, payload.as_slice())
                }
            },
            _ => (Stage::Failed(AuthError::Parse), Action::Abort),
        },
        Event::CodeEntered { code } => match stage {
            Stage::AwaitingCode { salt, server_public, key, server_proof, payload } => (
                Stage::AwaitingCodeResult { salt, server_public, key, server_proof, payload },
                Action::SubmitCode(code),
            ),
            _ => (Stage::Failed(AuthError::Parse), Action::Abort),
        },
        Event::CodeAccepted => match stage {
            Stage::AwaitingCodeResult { salt, server_public, key, server_proof, payload } => {
                let accepted = server_accepted(
                    private,
                    username.as_bytes(),
                    password.as_bytes(),
                    salt.as_slice(),
                    server_public.as_slice(),
                    server_proof.as_slice(),
                );
                conclude(accepted, key, payload.as_slice())
            },
            _ => (Stage::Failed(AuthError::Parse), Action::Abort),
        },
        Event::CodeRejected => match stage {
            Stage::AwaitingCodeResult { .. } => (
                Stage::Failed(AuthError::AuthOneTimeCode),
                Action::Abort,
            ),
            _ => (Stage::Failed(AuthError::Parse), Action::Abort),
        },
    }
}

/// The values that a stage kept for the verification of the server's proof.
pub open spec fn kept(stage: Stage, event: Event) -> (Seq<u8>, Seq<u8>, Seq<u8>) {
    match stage {
        Stage::AwaitingProof { salt, server_public, .. } => match event {
            Event::ProofReply { server_proof, .. } => (salt@, server_public@, server_proof@),
            _ => (salt@, server_public@, Seq::empty()),
        },
        Stage::AwaitingCodeResult { salt, server_public, server_proof, .. } => (
            salt@,
            server_public@,
            server_proof@,
        ),
        _ => (Seq::empty(), Seq::empty(), Seq::empty()),
    }
}

/// A step establishes a session only where the server's proof was accepted,
/// and the payload it hands out is the decrypted one: no handshake ends well
/// on an unverified proof, a refused one-time code or a transport failure.
pub proof fn lemma_established_only_verified(
    stage: Stage,
    event: Event,
    username: &str,
    password: &str,
    private: Seq<u8>,
    next: Stage,
    action: Action,
)
    requires
        !is_final(stage),
        step_ok(stage, event, username, password, private, next, action),
        next is Established,
    ensures
        stage is AwaitingProof || stage is AwaitingCodeResult,
        event is ProofReply || event is CodeAccepted,
        srp_server_accepted(
            private,
            username.spec_bytes(),
            password.spec_bytes(),
            kept(stage, event).0,
            kept(stage, event).1,
            kept(stage, event).2,
        ),
{
}

/// A final stage stays as it is whatever is reported.
pub proof fn lemma_final_is_absorbing(
    stage: Stage,
    event: Event,
    username: &str,
    password: &str,
    private: Seq<u8>,
    next: Stage,
    action: Action,
)
    requires
        is_final(stage),
        step_ok(stage, event, username, password, private, next, action),
    ensures
        next == stage,
{
}

} // verus!
