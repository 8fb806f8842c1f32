//! The error taxonomy shared by every component.
use vstd::prelude::*;

verus! {

/// Why an operation of this library failed.
#[derive(Debug, Clone, PartialEq, Eq)]
pub enum AuthError {
    /// The provider could not be reached; the caller may try again.
    Transport,
    /// A response did not have the expected shape.
    Parse,
    /// The key-agreement proof did not match: the credential is wrong.
    AuthProof,
    /// The one-time code was not accepted.
    AuthOneTimeCode,
    /// The provider reported an error, with its code and its message.
    AuthSrpWithMessage(i64, String),
    /// The auxiliary payload could not be decrypted.
    Decryption,
    /// Identity headers were requested from data that is no longer valid.
    StaleIdentity,
    /// A request was refused on the client side, before it was sent.
    Validation,
    /// A header that a request needs is not among the generated ones.
    DeveloperSessionRequestFailed,
}

/// What an error says to the user. What the provider reported is shown as
/// the provider worded it.
pub open spec fn error_words(e: AuthError) -> Seq<char> {
    match e {
        AuthError::Transport => "the provider could not be reached"@,
        AuthError::Parse => "the response was not understood"@,
        AuthError::AuthProof => "the password was not accepted"@,
        AuthError::AuthOneTimeCode => "the one-time code was not accepted"@,
        AuthError::AuthSrpWithMessage(_, message) => message@,
        AuthError::Decryption => "the account data could not be decrypted"@,
        AuthError::StaleIdentity => "the identity data has expired"@,
        AuthError::Validation => "the request was refused before it was sent"@,
        AuthError::DeveloperSessionRequestFailed => "a required header is missing"@,
    }
}

impl AuthError {
    /// The words for the user.
    pub fn message(&self) -> (words: String)
        ensures
            words@ == error_words(*self),
    {
        match self {
            AuthError::Transport => "the provider could not be reached".to_owned(),
            AuthError::Parse => "the response was not understood".to_owned(),
            AuthError::AuthProof => "the password was not accepted".to_owned(),
            AuthError::AuthOneTimeCode => "the one-time code was not accepted".to_owned(),
            AuthError::AuthSrpWithMessage(_, message) => message.clone(),
            AuthError::Decryption => "the account data could not be decrypted".to_owned(),
            AuthError::StaleIdentity => "the identity data has expired".to_owned(),
            AuthError::Validation => "the request was refused before it was sent".to_owned(),
            AuthError::DeveloperSessionRequestFailed => "a required header is missing".to_owned(),
        }
    }
}

/// A wrong password, a wrong one-time code and a transport failure read
/// differently.
pub proof fn lemma_failures_are_told_apart()
    ensures
        error_words(AuthError::AuthProof) != error_words(AuthError::AuthOneTimeCode),
        error_words(AuthError::AuthProof) != error_words(AuthError::Transport),
        error_words(AuthError::AuthOneTimeCode) != error_words(AuthError::Transport),
{
    reveal_strlit("the password was not accepted");
    reveal_strlit("the one-time code was not accepted");
    reveal_strlit("the provider could not be reached");
    assert("the password was not accepted"@.len() != "the one-time code was not accepted"@.len());
    assert("the password was not accepted"@.len() != "the provider could not be reached"@.len());
    assert("the one-time code was not accepted"@.len() != "the provider could not be reached"@.len());
}

} // verus!
