use vstd::prelude::*;

verus! {

/// Database identifier of a record.
pub type Id = i64;

/// Second-factor method a desktop client can ask for.
#[derive(Debug, Clone, Copy, PartialEq, Eq, Structural)]
pub enum MfaMethod {
    Totp,
    Email,
}

/// Method names as they are stored with a user and reported in activity events.
#[derive(Debug, Clone, Copy, PartialEq, Eq, Structural)]
pub enum MFAMethod {
    Disabled,
    OneTimePassword,
    Webauthn,
    Email,
}

pub open spec fn stored_method(m: MfaMethod) -> MFAMethod {
    match m {
        MfaMethod::Totp => MFAMethod::OneTimePassword,
        MfaMethod::Email => MFAMethod::Email,
    }
}

/// The stored method name of a second-factor method.
pub fn to_stored_method(m: MfaMethod) -> (r: MFAMethod)
    ensures
        r == stored_method(m),
{
    match m {
        MfaMethod::Totp => MFAMethod::OneTimePassword,
        MfaMethod::Email => MFAMethod::Email,
    }
}

/// Coarse error kinds of the login protocol. No kind says which check failed
/// beyond this.
#[derive(Debug, Clone, Copy, PartialEq, Eq, Structural)]
pub enum MfaError {
    NotFound,
    InvalidArgument,
    Unauthenticated,
    Internal,
}

/// A VPN location (WireGuard network), as far as the login reads it.
#[derive(Debug)]
pub struct WireguardNetwork {
    pub id: Id,
    pub name: String,
}

/// A user's device, identified by its WireGuard public key.
#[derive(Debug)]
pub struct Device {
    pub id: Id,
    pub name: String,
    pub wireguard_pubkey: String,
    pub user_id: Id,
}

/// The owner of a device, with its second-factor settings.
#[derive(Debug)]
pub struct User {
    pub id: Id,
    pub username: String,
    pub email: String,
    pub mfa_enabled: bool,
    pub totp_enabled: bool,
    pub email_mfa_enabled: bool,
    pub totp_secret: Option<Vec<u8>>,
    pub email_mfa_secret: Option<Vec<u8>>,
}

/// Network authorization of one device at one location.
#[derive(Debug)]
pub struct WireguardNetworkDevice {
    pub wireguard_network_id: Id,
    pub device_id: Id,
    pub wireguard_ips: Vec<String>,
    pub preshared_key: Option<String>,
    pub is_authorized: bool,
    /// Seconds since the Unix epoch.
    pub authorized_at: Option<u64>,
}

impl WireguardNetwork {
    pub fn copy(&self) -> (r: WireguardNetwork)
        ensures
            r == *self,
    {
        WireguardNetwork { id: self.id, name: self.name.clone() }
    }
}

impl Device {
    pub fn copy(&self) -> (r: Device)
        ensures
            r == *self,
    {
        Device {
            id: self.id,
            name: self.name.clone(),
            wireguard_pubkey: self.wireguard_pubkey.clone(),
            user_id: self.user_id,
        }
    }
}

} // verus!
