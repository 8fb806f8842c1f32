//! The commands of the tool and their arguments, as plain values.
use vstd::prelude::*;
use crate::error::AuthError;
use crate::session::{listed, resolve_team, revoke_certificate, team_resolved, Certificate,
    RevokeRequest};

verus! {

/// The whole command line.
#[derive(Debug, Clone)]
pub struct Cli {
    pub command: Commands,
}

/// The commands. Signing, binary inspection, account and device management
/// take arguments that this library does not read.
#[derive(Debug, Clone)]
pub enum Commands {
    /// Sign an app bundle.
    Sign,
    /// Inspect binaries.
    MachO,
    /// Manage the account.
    Account,
    /// List or revoke certificates.
    Certificate(CertificateArgs),
    /// Manage devices.
    Device,
    /// List the connected devices.
    DeviceId(DeviceIdArgs),
    /// Pair a device.
    Pair(PairArgs),
    /// Run a check.
    Check(CheckArgs),
}

/// Arguments of the certificate command.
#[derive(Debug, Clone)]
pub struct CertificateArgs {
    pub command: CertificateCommands,
}

/// What to do with certificates.
#[derive(Debug, Clone)]
pub enum CertificateCommands {
    /// List the certificates of a team.
    List(ListArgs),
    /// Revoke a certificate by its serial number.
    Revoke(RevokeArgs),
}

/// Arguments of the listing.
#[derive(Debug, Clone)]
pub struct ListArgs {
    /// The account's e-mail address.
    pub username: Option<String>,
    /// The team whose certificates are listed.
    pub team_id: Option<String>,
    /// The kind of certificate to list.
    pub cert_type: Option<String>,
}

/// Arguments of the revocation.
#[derive(Debug, Clone)]
pub struct RevokeArgs {
    /// The account's e-mail address.
    pub username: Option<String>,
    /// The team that holds the certificate.
    pub team_id: Option<String>,
    /// The serial number of the certificate.
    pub serial_number: String,
}

/// Arguments of the check command.
#[derive(Debug, Clone)]
pub struct CheckArgs {
    pub command: CheckCommands,
}

/// The checks.
#[derive(Debug, Clone)]
pub enum CheckCommands {
    /// Show the configuration.
    Config,
    /// Check file access on a device.
    Afc(AfcArgs),
    /// Validate a pairing file against a device.
    Pairing(PairingArgs),
}

/// Arguments of the configuration check.
#[derive(Debug, Clone)]
pub struct ConfigArgs {}

/// Arguments of the file-access check.
#[derive(Debug, Clone)]
pub struct AfcArgs {
    /// The device to use.
    pub udid: Option<String>,
}

/// Arguments of the pairing check.
#[derive(Debug, Clone)]
pub struct PairingArgs {
    /// The device's address.
    pub ip: String,
    /// The path of the pairing file.
    pub pairing: String,
    /// Whether the pairing record is stored afterwards.
    pub save: bool,
}

/// Arguments of the device listing.
#[derive(Debug, Clone)]
pub struct DeviceIdArgs {}

/// Arguments of the pairing.
#[derive(Debug, Clone)]
pub struct PairArgs {
    /// The device to pair.
    pub udid: Option<String>,
    /// Whether to pair over the network.
    pub wireless: bool,
}

impl ListArgs {
    /// The team whose certificates are listed: the one given on the command
    /// line, else the one selected among the account's teams.
    pub fn team(&self, teams: &[String], selection: Option<usize>) -> (r: Result<String, AuthError>)
        ensures
            team_resolved(self.team_id, teams@, selection, r),
    {
        resolve_team(self.team_id.clone(), teams, selection)
    }
}

impl RevokeArgs {
    /// The team that holds the certificate: the one given on the command
    /// line, else the one selected among the account's teams.
    pub fn team(&self, teams: &[String], selection: Option<usize>) -> (r: Result<String, AuthError>)
        ensures
            team_resolved(self.team_id, teams@, selection, r),
    {
        resolve_team(self.team_id.clone(), teams, selection)
    }

    /// The request that revokes the certificate, made only where the team's
    /// listing holds the serial number.
    pub fn request(&self, team_id: &str, listing: &[Certificate]) -> (r: Result<
        RevokeRequest,
        AuthError,
    >)
        ensures
            match r {
                Ok(request) => listed(listing@, self.serial_number@) && request.team_id@
                    == team_id@ && request.serial_number@ == self.serial_number@,
                Err(e) => !listed(listing@, self.serial_number@) && e == AuthError::Validation,
            },
    {
        revoke_certificate(team_id, self.serial_number.as_str(), listing)
    }
}

/// How a device is connected.
#[derive(Debug, Clone, Copy, PartialEq, Eq)]
pub enum Link {
    /// By cable.
    Usb,
    /// Over the network.
    Network,
    /// In a way that is not known.
    Unknown,
}

/// The words that the device listing prints for a link.
pub open spec fn link_words(link: Link) -> Seq<char> {
    match link {
        Link::Usb => "(USB)"@,
        Link::Network => "(Network)"@,
        Link::Unknown => ""@,
    }
}

/// Names a link as the device listing prints it.
pub fn connection_label(link: Link) -> (label: &'static str)
    ensures
        label@ == link_words(link),
{
    match link {
        Link::Usb => "(USB)",
        Link::Network => "(Network)",
        Link::Unknown => "",
    }
}

} // verus!
