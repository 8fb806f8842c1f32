//! The decisions of an authenticated session: team, certificates, and when
//! identity headers are made anew.
use vstd::prelude::*;
use crate::anisette::{needs_refresh_at, stale_at, valid_at, AnisetteData};
use crate::error::AuthError;
use crate::handshake::Stage;

verus! {

/// A signing certificate as the provider lists it.
#[derive(Debug, Clone)]
pub struct Certificate {
    pub name: String,
    pub serial_number: String,
    pub expiration_date: String,
    pub machine_name: Option<String>,
}

/// Some certificate of the listing has the serial number.
pub open spec fn listed(certificates: Seq<Certificate>, serial: Seq<char>) -> bool {
    exists|i: int|
        0 <= i < certificates.len() && (#[trigger] certificates[i]).serial_number@ == serial
}

/// Tells whether the listing holds a certificate with the serial number.
pub fn has_serial(certificates: &[Certificate], serial_number: &str) -> (r: bool)
    ensures
        r == listed(certificates@, serial_number@),
{
    let wanted = serial_number.to_owned();
    let mut i: usize = 0;
    while i < certificates.len()
        invariant
            i <= certificates.len(),
            wanted@ == serial_number@,
            forall|j: int|
                0 <= j < i ==> (#[trigger] certificates@[j]).serial_number@ != serial_number@,
        decreases certificates.len() - i,
    {
        if certificates[i].serial_number == wanted {
            return true;
        }
        i += 1;
    }
    false
}

/// A request to revoke one certificate of a team.
#[derive(Debug, Clone)]
pub struct RevokeRequest {
    pub team_id: String,
    pub serial_number: String,
}

/// Prepares the revocation of a certificate. The request is made only for a
/// serial number that the current listing holds; any other is refused here,
/// and nothing is left to send.
pub fn revoke_certificate(team_id: &str, serial_number: &str, listing: &[Certificate]) -> (r:
    Result<RevokeRequest, AuthError>)
    ensures
        match r {
            Ok(request) => listed(listing@, serial_number@) && request.team_id@ == team_id@
                && request.serial_number@ == serial_number@,
            Err(e) => !listed(listing@, serial_number@) && e == AuthError::Validation,
        },
{
    if !has_serial(listing, serial_number) {
        return Err(AuthError::Validation);
    }
    Ok(RevokeRequest { team_id: team_id.to_owned(), serial_number: serial_number.to_owned() })
}

/// What the provider said of a revocation: its result string, else its
/// message for the user, else nothing.
pub fn revoke_message(result_string: Option<String>, user_string: Option<String>) -> (r: Option<
    String,
>)
    ensures
        r == (if result_string is Some {
            result_string
        } else {
            user_string
        }),
{
    match result_string {
        Some(s) => Some(s),
        None => user_string,
    }
}

/// What `resolve_team` returns: a team given by the caller comes back as it
/// is; without one the selection among the account's teams decides, and
/// where there is no selection inside the list nothing is guessed.
pub open spec fn team_resolved(
    explicit: Option<String>,
    teams: Seq<String>,
    selection: Option<usize>,
    r: Result<String, AuthError>,
) -> bool {
    match explicit {
        Some(id) => r matches Ok(team) && team@ == id@,
        None => match selection {
            Some(i) => if i < teams.len() {
                r matches Ok(team) && team@ == teams[i as int]@
            } else {
                r == Err::<String, AuthError>(AuthError::Validation)
            },
            None => r == Err::<String, AuthError>(AuthError::Validation),
        },
    }
}

/// Resolves the team of a request.
pub fn resolve_team(explicit: Option<String>, teams: &[String], selection: Option<usize>) -> (r:
    Result<String, AuthError>)
    ensures
        team_resolved(explicit, teams@, selection, r),
{
    match explicit {
        Some(id) => Ok(id),
        None => match selection {
            Some(i) => {
                if i < teams.len() {
                    Ok(teams[i].clone())
                } else {
                    Err(AuthError::Validation)
                }
            },
            None => Err(AuthError::Validation),
        },
    }
}

/// What a session does with its identity headers before a call.
#[derive(Debug, Clone, Copy, PartialEq, Eq)]
pub enum HeaderPlan {
    /// The headers at hand are used.
    Reuse,
    /// New headers are made first.
    Refresh,
}

/// Decides, from the age of the identity data, whether a call uses it or
/// waits for new data.
pub fn plan_headers(age: Option<u128>) -> (plan: HeaderPlan)
    ensures
        plan is Refresh <==> stale_at(age),
        plan is Reuse ==> valid_at(age),
{
    if needs_refresh_at(age) {
        HeaderPlan::Refresh
    } else {
        HeaderPlan::Reuse
    }
}

/// An established session: the verified shared secret, the account data
/// that came with it, the identity data in use and the team once chosen.
pub struct AuthenticatedSession {
    pub secret: Vec<u8>,
    pub metadata: Vec<u8>,
    pub anisette: AnisetteData,
    pub team_id: Option<String>,
}

/// What `establish` makes of a handshake: a session from an established one
/// and from no other.
pub open spec fn established_from(stage: Stage, r: Result<AuthenticatedSession, AuthError>)
    -> bool {
    match stage {
        Stage::Established { secret, metadata } => r matches Ok(session) && session.secret@
            == secret@ && session.metadata@ == metadata@ && session.team_id is None,
        Stage::Failed(e) => r == Err::<AuthenticatedSession, AuthError>(e),
        _ => r == Err::<AuthenticatedSession, AuthError>(AuthError::Validation),
    }
}

impl AuthenticatedSession {
    /// Makes the session that a handshake has established. A handshake that
    /// failed gives its error, one that is still under way is refused.
    pub fn establish(stage: Stage, anisette: AnisetteData) -> (r: Result<
        AuthenticatedSession,
        AuthError,
    >)
        ensures
            established_from(stage, r),
            r matches Ok(session) ==> session.anisette == anisette,
    {
        match stage {
            Stage::Established { secret, metadata } => Ok(
                AuthenticatedSession { secret, metadata, anisette, team_id: None },
            ),
            Stage::Failed(e) => Err(e),
            _ => Err(AuthError::Validation),
        }
    }

    /// Reads the clock and decides whether the next call uses the identity
    /// data at hand or waits for new data.
    pub fn plan_call(&self) -> (plan: HeaderPlan) {
        plan_headers(self.anisette.age_nanos())
    }

    /// The session with new identity data in place of the old.
    pub fn with_anisette(self, anisette: AnisetteData) -> (r: AuthenticatedSession)
        ensures
            r.anisette == anisette,
            r.secret == self.secret,
            r.metadata == self.metadata,
            r.team_id == self.team_id,
    {
        AuthenticatedSession {
            secret: self.secret,
            metadata: self.metadata,
            anisette,
            team_id: self.team_id,
        }
    }
}

} // verus!
