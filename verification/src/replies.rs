//! Reading the provider's answers during a handshake: which event an answer
//! is.
use vstd::prelude::*;
use crate::error::AuthError;
use crate::handshake::Event;
use crate::records::{data_at, dict_entries, get_data, get_record, get_text, record_at, text_at,
    Node};

verus! {

/// The record asks for a one-time code: its status names one of the two
/// kinds of second factor under `au`.
pub open spec fn code_wanted(record: Map<Seq<char>, Node>) -> bool {
    match record_at(record, "Status"@) {
        Some(status) => match text_at(status, "au"@) {
            Some(kind) => kind == "trustedDeviceSecondaryAuth"@ || kind == "secondaryAuth"@,
            None => false,
        },
        None => false,
    }
}

/// Tells whether a record asks for a one-time code.
pub fn code_required(record: &plist::Dictionary) -> (r: bool)
    ensures
        r == code_wanted(dict_entries(*record)),
{
    match get_record(record, "Status") {
        Some(status) => match get_text(&status, "au") {
            Some(kind) => kind == "trustedDeviceSecondaryAuth".to_owned() || kind
                == "secondaryAuth".to_owned(),
            None => false,
        },
        None => false,
    }
}

/// The event that an error stands for: what the provider reported is a
/// rejection with its code and message, a transport error a transport
/// failure, anything else an answer that could not be read.
pub open spec fn is_failure_event(e: AuthError, ev: Event) -> bool {
    match e {
        AuthError::AuthSrpWithMessage(code, message) => ev matches Event::Rejected(c, m) && c
            == code && m@ == message@,
        AuthError::Transport => ev is TransportFailed,
        _ => ev is Malformed,
    }
}

/// Turns an error into the event that reports it.
pub fn failure_event(e: AuthError) -> (ev: Event)
    ensures
        is_failure_event(e, ev),
{
    match e {
        AuthError::AuthSrpWithMessage(code, message) => Event::Rejected(code, message),
        AuthError::Transport => Event::TransportFailed,
        _ => Event::Malformed,
    }
}

/// The event that the answer to the opening request is: a challenge with
/// the salt under `s` and the server's public value under `B`; without both
/// the answer cannot be read.
pub open spec fn is_challenge_event(answer: Result<plist::Dictionary, AuthError>, ev: Event)
    -> bool {
    match answer {
        Ok(record) => match (
            data_at(dict_entries(record), "s"@),
            data_at(dict_entries(record), "B"@),
        ) {
            (Some(salt), Some(public)) => ev matches Event::Challenge { salt: s, server_public: b }
                && s@ == salt && b@ == public,
            _ => ev is Malformed,
        },
        Err(e) => is_failure_event(e, ev),
    }
}

/// Reads the answer to the opening request.
pub fn challenge_event(answer: Result<plist::Dictionary, AuthError>) -> (ev: Event)
    ensures
        is_challenge_event(answer, ev),
{
    match answer {
        Ok(record) => {
            let salt = get_data(&record, "s");
            let public = get_data(&record, "B");
            match (salt, public) {
                (Some(salt), Some(server_public)) => Event::Challenge { salt, server_public },
                _ => Event::Malformed,
            }
        },
        Err(e) => failure_event(e),
    }
}

/// The event that the answer to the client proof is: the server's proof
/// under `M2`, the payload under `spd`, and whether a one-time code is
/// wanted; without proof and payload the answer cannot be read.
pub open spec fn is_proof_event(answer: Result<plist::Dictionary, AuthError>, ev: Event) -> bool {
    match answer {
        Ok(record) => match (
            data_at(dict_entries(record), "M2"@),
            data_at(dict_entries(record), "spd"@),
        ) {
            (Some(proof), Some(data)) => ev matches Event::ProofReply {
                server_proof: m,
                payload: p,
                code_required: c,
            } && m@ == proof && p@ == data && c == code_wanted(dict_entries(record)),
            _ => ev is Malformed,
        },
        Err(e) => is_failure_event(e, ev),
    }
}

/// Reads the answer to the client proof.
pub fn proof_event(answer: Result<plist::Dictionary, AuthError>) -> (ev: Event)
    ensures
        is_proof_event(answer, ev),
{
    match answer {
        Ok(record) => {
            let proof = get_data(&record, "M2");
            let data = get_data(&record, "spd");
            match (proof, data) {
                (Some(server_proof), Some(payload)) => {
                    let code_required = code_required(&record);
                    Event::ProofReply { server_proof, payload, code_required }
                },
                _ => Event::Malformed,
            }
        },
        Err(e) => failure_event(e),
    }
}

/// The event that the answer to a one-time code is: any record without an
/// error accepts the code, an error that the provider reported refuses it.
pub open spec fn is_code_event(answer: Result<plist::Dictionary, AuthError>, ev: Event) -> bool {
    match answer {
        Ok(_) => ev is CodeAccepted,
        Err(AuthError::AuthSrpWithMessage(_, _)) => ev is CodeRejected,
        Err(AuthError::Transport) => ev is TransportFailed,
        Err(_) => ev is Malformed,
    }
}

/// Reads the answer to a one-time code.
pub fn code_event(answer: Result<plist::Dictionary, AuthError>) -> (ev: Event)
    ensures
        is_code_event(answer, ev),
{
    match answer {
        Ok(_) => Event::CodeAccepted,
        Err(AuthError::AuthSrpWithMessage(_, _)) => Event::CodeRejected,
        Err(AuthError::Transport) => Event::TransportFailed,
        Err(_) => Event::Malformed,
    }
}

} // verus!
