//! Messages for the activity-log writer.
use vstd::prelude::*;

use crate::digits::{push_signed_decimal, signed_decimal};
use crate::events::{ApiRequestContext, BidiRequestContext, GrpcRequestContext, InternalEventContext};
use crate::model::{Device, Id, MFAMethod, WireguardNetwork};

verus! {

/// A message to the activity-log writer.
pub struct EventLoggerMessage {
    pub context: EventContext,
    pub event: LoggerEvent,
}

impl EventLoggerMessage {
    pub fn new(context: EventContext, event: LoggerEvent) -> (r: Self)
        ensures
            r.context == context,
            r.event == event,
    {
        EventLoggerMessage { context, event }
    }
}

/// Activity-log events, by the part of the system they come from.
pub enum LoggerEvent {
    Defguard(DefguardEvent),
    Client(ClientEvent),
    Vpn(VpnEvent),
    Enrollment(EnrollmentEvent),
}

/// Context shared by all activity-log events.
pub struct EventContext {
    /// Seconds since the Unix epoch, UTC.
    pub timestamp: i64,
    pub user_id: Id,
    pub username: String,
    pub ip: String,
    pub device: String,
}

/// `<name> (ID <id>)`, how the log names a device.
pub open spec fn device_label(name: Seq<char>, id: Id) -> Seq<char> {
    name + " (ID "@ + signed_decimal(id as int) + ")"@
}

fn label_device(name: &String, id: Id) -> (r: String)
    ensures
        r@ == device_label(name@, id),
{
    proof {
        reveal_strlit(" (ID ");
        reveal_strlit(")");
    }
    let mut r = name.clone();
    r.append(" (ID ");
    push_signed_decimal(id, &mut r);
    r.append(")");
    assert(r@ =~= device_label(name@, id));
    r
}

impl From<ApiRequestContext> for EventContext {
    fn from(val: ApiRequestContext) -> (r: Self) {
        EventContext {
            timestamp: val.timestamp,
            user_id: val.user_id,
            username: val.username,
            ip: val.ip,
            device: val.device,
        }
    }
}

impl vstd::std_specs::convert::FromSpecImpl<ApiRequestContext> for EventContext {
    open spec fn obeys_from_spec() -> bool {
        true
    }

    open spec fn from_spec(val: ApiRequestContext) -> EventContext {
        EventContext {
            timestamp: val.timestamp,
            user_id: val.user_id,
            username: val.username,
            ip: val.ip,
            device: val.device,
        }
    }
}

impl From<BidiRequestContext> for EventContext {
    fn from(val: BidiRequestContext) -> (r: Self) {
        EventContext {
            timestamp: val.timestamp,
            user_id: val.user_id,
            username: val.username,
            ip: val.ip,
            device: val.user_agent,
        }
    }
}

impl vstd::std_specs::convert::FromSpecImpl<BidiRequestContext> for EventContext {
    open spec fn obeys_from_spec() -> bool {
        true
    }

    open spec fn from_spec(val: BidiRequestContext) -> EventContext {
        EventContext {
            timestamp: val.timestamp,
            user_id: val.user_id,
            username: val.username,
            ip: val.ip,
            device: val.user_agent,
        }
    }
}

impl EventContext {
    /// The context of a gRPC event, naming the device by name and id.
    pub fn from_grpc(val: GrpcRequestContext) -> (r: Self)
        ensures
            r.timestamp == val.timestamp,
            r.user_id == val.user_id,
            r.username == val.username,
            r.ip == val.ip,
            r.device@ == device_label(val.device_name@, val.device_id),
    {
        let device = label_device(&val.device_name, val.device_id);
        EventContext {
            timestamp: val.timestamp,
            user_id: val.user_id,
            username: val.username,
            ip: val.ip,
            device,
        }
    }

    /// The context of a background event, naming the device by name and id.
    pub fn from_internal(val: InternalEventContext) -> (r: Self)
        ensures
            r.timestamp == val.timestamp,
            r.user_id == val.user_id,
            r.username == val.username,
            r.ip == val.ip,
            r.device@ == device_label(val.device.name@, val.device.id),
    {
        let device = label_device(&val.device.name, val.device.id);
        EventContext {
            timestamp: val.timestamp,
            user_id: val.user_id,
            username: val.username,
            ip: val.ip,
            device,
        }
    }
}

/// Kind of an authentication key.
#[derive(Debug, Clone, Copy, PartialEq, Eq, Structural)]
pub enum AuthenticationKeyType {
    SSH,
    GPG,
}

/// Activity-log events of actions in the web UI.
pub enum DefguardEvent {
    UserLogin,
    UserLoginFailed,
    UserMfaLogin { mfa_method: MFAMethod },
    UserMfaLoginFailed { mfa_method: MFAMethod },
    UserLogout,
    RecoveryCodeUsed,
    PasswordChanged,
    MfaDisabled,
    MfaTotpEnabled,
    MfaTotpDisabled,
    MfaEmailEnabled,
    MfaEmailDisabled,
    MfaSecurityKeyAdded { key_id: Id, key_name: String },
    MfaSecurityKeyRemoved { key_id: Id, key_name: String },
    AuthenticationKeyAdded { key_id: Id, key_name: String, key_type: AuthenticationKeyType },
    AuthenticationKeyRemoved { key_id: Id, key_name: String, key_type: AuthenticationKeyType },
    AuthenticationKeyRenamed { key_id: Id, key_name: String, key_type: AuthenticationKeyType },
    ApiTokenAdded { token_id: Id, token_name: String },
    ApiTokenRemoved { token_id: Id, token_name: String },
    ApiTokenRenamed { token_id: Id, token_name: String },
    UserAdded { username: String },
    UserRemoved { username: String },
    UserModified { username: String },
    UserDisabled { username: String },
    UserDeviceAdded { device_id: Id, device_name: String, owner: String },
    UserDeviceRemoved { device_id: Id, device_name: String, owner: String },
    UserDeviceModified { device_id: Id, device_name: String, owner: String },
    NetworkDeviceAdded { device_id: Id, device_name: String, location_id: Id, location: String },
    NetworkDeviceRemoved { device_id: Id, device_name: String, location_id: Id, location: String },
    NetworkDeviceModified { device_id: Id, device_name: String, location_id: Id, location: String },
    VpnLocationAdded { location_id: Id, location_name: String },
    VpnLocationRemoved { location_id: Id, location_name: String },
    VpnLocationModified { location_id: Id, location_name: String },
    OpenIdAppAdded { app_id: Id, app_name: String },
    OpenIdAppRemoved { app_id: Id, app_name: String },
    OpenIdAppModified { app_id: Id, app_name: String },
    OpenIdAppDisabled { app_id: Id, app_name: String },
    OpenIdProviderAdded { provider_id: Id, provider_name: String },
    OpenIdProviderRemoved { provider_id: Id, provider_name: String },
    SettingsUpdated,
    SettingsUpdatedPartial,
    SettingsDefaultBrandingRestored,
    ActivityLogStreamCreated { stream_id: Id, stream_name: String },
    ActivityLogStreamModified { stream_id: Id, stream_name: String },
    ActivityLogStreamRemoved { stream_id: Id, stream_name: String },
}

/// Activity-log events of client applications.
pub enum ClientEvent {
    DesktopClientActivated { device_id: Id, device_name: String },
    DesktopClientUpdated { device_id: Id, device_name: String },
}

/// Activity-log events of VPN connections.
pub enum VpnEvent {
    ConnectedToMfaLocation { location: WireguardNetwork, device: Device, method: MFAMethod },
    DisconnectedFromMfaLocation { location: WireguardNetwork, device: Device },
    MfaFailed { location: WireguardNetwork, device: Device, method: MFAMethod },
    ConnectedToLocation { location: WireguardNetwork, device: Device },
    DisconnectedFromLocation { location: WireguardNetwork, device: Device },
}

/// Activity-log events of enrollment and password reset.
pub enum EnrollmentEvent {
    EnrollmentStarted,
    EnrollmentDeviceAdded { device: Device },
    EnrollmentCompleted,
    PasswordResetRequested,
    PasswordResetStarted,
    PasswordResetCompleted,
}

} // verus!
