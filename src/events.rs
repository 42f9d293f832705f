//! Events that the core emits towards the activity log and the gateways.
use vstd::prelude::*;

use crate::model::{Device, Id, MFAMethod, WireguardNetwork};

verus! {

/// Shared context of every event of the web API.
#[derive(Debug)]
pub struct ApiRequestContext {
    /// Seconds since the Unix epoch, UTC.
    pub timestamp: i64,
    pub user_id: Id,
    pub username: String,
    pub ip: String,
    pub device: String,
}

impl ApiRequestContext {
    /// A context stamped with `timestamp`, in seconds since the Unix epoch.
    pub fn new(timestamp: i64, user_id: Id, username: String, ip: String, device: String) -> (r: Self)
        ensures
            r.timestamp == timestamp,
            r.user_id == user_id,
            r.username == username,
            r.ip == ip,
            r.device == device,
    {
        ApiRequestContext { timestamp, user_id, username, ip, device }
    }
}

/// Shared context of every event a user causes in the gRPC server.
#[derive(Debug)]
pub struct GrpcRequestContext {
    pub timestamp: i64,
    pub user_id: Id,
    pub username: String,
    pub ip: String,
    pub device_id: Id,
    pub device_name: String,
}

impl GrpcRequestContext {
    /// A context stamped with `timestamp`, in seconds since the Unix epoch.
    pub fn new(
        timestamp: i64,
        user_id: Id,
        username: String,
        ip: String,
        device_id: Id,
        device_name: String,
    ) -> (r: Self)
        ensures
            r.timestamp == timestamp,
            r.user_id == user_id,
            r.username == username,
            r.ip == ip,
            r.device_id == device_id,
            r.device_name == device_name,
    {
        GrpcRequestContext { timestamp, user_id, username, ip, device_id, device_name }
    }
}

#[derive(Debug)]
pub enum ApiEventType {
    UserLogin,
    UserLoginFailed,
    UserMfaLogin { mfa_method: MFAMethod },
    UserMfaLoginFailed { mfa_method: MFAMethod },
    RecoveryCodeUsed,
    UserLogout,
    MfaDisabled,
    MfaTotpDisabled,
    MfaTotpEnabled,
    MfaEmailDisabled,
    MfaEmailEnabled,
    MfaSecurityKeyAdded { key_id: Id, key_name: String },
    MfaSecurityKeyRemoved { key_id: Id, key_name: String },
    UserAdded { username: String },
    UserRemoved { username: String },
    UserModified { username: String },
    UserDeviceAdded { device_id: Id, owner: String, device_name: String },
    UserDeviceRemoved { device_id: Id, owner: String, device_name: String },
    UserDeviceModified { device_id: Id, owner: String, device_name: String },
    NetworkDeviceAdded { device_id: Id, device_name: String, location_id: Id, location: String },
    NetworkDeviceRemoved { device_id: Id, device_name: String, location_id: Id, location: String },
    NetworkDeviceModified { device_id: Id, device_name: String, location_id: Id, location: String },
    ActivityLogStreamCreated { stream_id: Id, stream_name: String },
    ActivityLogStreamModified { stream_id: Id, stream_name: String },
    ActivityLogStreamRemoved { stream_id: Id, stream_name: String },
}

/// An event of the web API.
#[derive(Debug)]
pub struct ApiEvent {
    pub context: ApiRequestContext,
    pub event: ApiEventType,
}

/// An event of the gRPC server.
#[derive(Debug)]
pub enum GrpcEvent {
    GatewayConnected,
    GatewayDisconnected,
    ClientConnected { context: GrpcRequestContext, location: WireguardNetwork, device: Device },
    ClientDisconnected { context: GrpcRequestContext, location: WireguardNetwork, device: Device },
}

/// Shared context of every event a user causes over the bi-directional
/// gRPC stream.
#[derive(Debug)]
pub struct BidiRequestContext {
    pub timestamp: i64,
    pub user_id: Id,
    pub username: String,
    pub ip: String,
    pub user_agent: String,
}

impl BidiRequestContext {
    /// A context stamped with `timestamp`, in seconds since the Unix epoch.
    pub fn new(timestamp: i64, user_id: Id, username: String, ip: String, user_agent: String) -> (r: Self)
        ensures
            r.timestamp == timestamp,
            r.user_id == user_id,
            r.username == username,
            r.ip == ip,
            r.user_agent == user_agent,
    {
        BidiRequestContext { timestamp, user_id, username, ip, user_agent }
    }
}

/// An event of the bi-directional gRPC stream.
#[derive(Debug)]
pub struct BidiStreamEvent {
    pub context: BidiRequestContext,
    pub event: BidiStreamEventType,
}

/// The service of the bi-directional stream that an event comes from.
#[derive(Debug)]
pub enum BidiStreamEventType {
    Enrollment(EnrollmentEvent),
    PasswordReset(PasswordResetEvent),
    DesktopClientMfa(DesktopClientMfaEvent),
}

#[derive(Debug)]
pub enum EnrollmentEvent {
    EnrollmentStarted,
    EnrollmentDeviceAdded { device: Device },
    EnrollmentCompleted,
}

#[derive(Debug)]
pub enum PasswordResetEvent {
    PasswordResetRequested,
    PasswordResetStarted,
    PasswordResetCompleted,
}

/// Outcome of a desktop-client MFA login, for the activity log.
#[derive(Debug)]
pub enum DesktopClientMfaEvent {
    Connected { device: Device, location: WireguardNetwork, method: MFAMethod },
    Failed { device: Device, location: WireguardNetwork, method: MFAMethod },
}

/// Shared context of every event raised in the background.
#[derive(Debug)]
pub struct InternalEventContext {
    pub timestamp: i64,
    pub user_id: Id,
    pub username: String,
    pub ip: String,
    pub device: Device,
}

impl InternalEventContext {
    /// A context stamped with `timestamp`, in seconds since the Unix epoch.
    pub fn new(timestamp: i64, user_id: Id, username: String, ip: String, device: Device) -> (r: Self)
        ensures
            r.timestamp == timestamp,
            r.user_id == user_id,
            r.username == username,
            r.ip == ip,
            r.device == device,
    {
        InternalEventContext { timestamp, user_id, username, ip, device }
    }
}

/// Events raised by background tasks rather than by a user.
#[derive(Debug)]
pub enum InternalEvent {
    DesktopClientMfaDisconnected { context: InternalEventContext, location: WireguardNetwork },
}

/// The network parameters of a device at one location, as gateways get them.
#[derive(Debug)]
pub struct DeviceNetworkInfo {
    pub network_id: Id,
    pub device_wireguard_ips: Vec<String>,
    pub preshared_key: Option<String>,
    pub is_authorized: bool,
}

#[derive(Debug)]
pub struct DeviceInfo {
    pub device: Device,
    pub network_info: Vec<DeviceNetworkInfo>,
}

/// A peer change announced to the gateways.
#[derive(Debug)]
pub enum GatewayEvent {
    DeviceCreated(DeviceInfo),
}

} // verus!
