use defguard_mfa::events::{BidiStreamEventType, DesktopClientMfaEvent, GatewayEvent};
use defguard_mfa::model::{Device, MFAMethod, MfaError, MfaMethod, User, WireguardNetwork, WireguardNetworkDevice};
use defguard_mfa::server::{mfa_method_from_wire, ClientMfaServer, ClientMfaStartRequest, FinishOutcome, StartLookup};

const PUBKEY: &str = "AAAAAAAAAAAAAAAAAAAAAAAAAAAAAAAAAAAAAAAAAAA=";
const PSK: &str = "SGVsbG8gd29ybGQsIHRoaXMgaXMgYSBwcmVzaGFyZWQ=";
const NOW: u64 = 1_700_000_000;

fn location() -> WireguardNetwork {
    WireguardNetwork { id: 1, name: "office".to_string() }
}

fn device() -> Device {
    Device { id: 7, name: "laptop".to_string(), wireguard_pubkey: PUBKEY.to_string(), user_id: 3 }
}

fn user(totp: bool, email: bool) -> User {
    User {
        id: 3,
        username: "alice".to_string(),
        email: "alice@example.com".to_string(),
        mfa_enabled: totp || email,
        totp_enabled: totp,
        email_mfa_enabled: email,
        totp_secret: if totp { Some(vec![1, 2, 3]) } else { None },
        email_mfa_secret: if email { Some(vec![4, 5, 6]) } else { None },
    }
}

fn lookup(user: User, user_groups: &[&str], allowed: Option<&[&str]>) -> StartLookup {
    StartLookup {
        location: Some(location()),
        device: Some(device()),
        user: Some(user),
        user_groups: user_groups.iter().map(|g| g.to_string()).collect(),
        allowed_groups: allowed.map(|a| a.iter().map(|g| g.to_string()).collect()),
    }
}

fn request(method: i32) -> ClientMfaStartRequest {
    ClientMfaStartRequest { pubkey: PUBKEY.to_string(), location_id: 1, method }
}

fn row() -> WireguardNetworkDevice {
    WireguardNetworkDevice {
        wireguard_network_id: 1,
        device_id: 7,
        wireguard_ips: vec!["10.0.0.2".to_string()],
        preshared_key: Some("old key".to_string()),
        is_authorized: false,
        authorized_at: None,
    }
}

fn ip() -> String {
    "192.0.2.1".to_string()
}

fn agent() -> String {
    "client/1.0".to_string()
}

fn started_server(method: i32) -> (ClientMfaServer, String) {
    let mut server = ClientMfaServer::new(b"server secret".to_vec());
    let plan = server.check_start(&request(method), lookup(user(true, true), &[], None)).unwrap();
    let token = server.start_client_mfa_login(plan, NOW).unwrap().token;
    (server, token)
}

#[test]
fn unknown_public_key_is_not_found() {
    let server = ClientMfaServer::new(b"k".to_vec());
    let mut l = lookup(user(true, false), &[], None);
    l.device = None;
    assert_eq!(server.check_start(&request(0), l).unwrap_err(), MfaError::NotFound);
    let mut l = lookup(user(true, false), &[], None);
    l.device.as_mut().unwrap().wireguard_pubkey = "other key".to_string();
    assert_eq!(server.check_start(&request(0), l).unwrap_err(), MfaError::NotFound);
    assert!(server.session(PUBKEY).is_none());
}

#[test]
fn missing_location_or_user_is_not_found() {
    let server = ClientMfaServer::new(b"k".to_vec());
    let mut l = lookup(user(true, false), &[], None);
    l.location = None;
    assert_eq!(server.check_start(&request(0), l).unwrap_err(), MfaError::NotFound);
    let mut l = lookup(user(true, false), &[], None);
    l.user = None;
    assert_eq!(server.check_start(&request(0), l).unwrap_err(), MfaError::NotFound);
    let mut req = request(0);
    req.location_id = 2;
    assert_eq!(
        server.check_start(&req, lookup(user(true, false), &[], None)).unwrap_err(),
        MfaError::NotFound
    );
}

#[test]
fn user_outside_allowed_groups_is_unauthenticated() {
    let server = ClientMfaServer::new(b"k".to_vec());
    let l = lookup(user(true, false), &["staff"], Some(&["admins", "vpn"]));
    assert_eq!(server.check_start(&request(0), l).unwrap_err(), MfaError::Unauthenticated);
    assert!(server.session(PUBKEY).is_none());
}

#[test]
fn user_in_an_allowed_group_may_start() {
    let server = ClientMfaServer::new(b"k".to_vec());
    let l = lookup(user(true, false), &["staff", "vpn"], Some(&["admins", "vpn"]));
    assert!(server.check_start(&request(0), l).is_ok());
    let l = lookup(user(true, false), &[], Some(&[]));
    assert!(server.check_start(&request(0), l).is_ok());
}

#[test]
fn inconsistent_mfa_state_is_internal() {
    let server = ClientMfaServer::new(b"k".to_vec());
    let mut u = user(true, false);
    u.totp_secret = None;
    assert_eq!(server.check_start(&request(0), lookup(u, &[], None)).unwrap_err(), MfaError::Internal);
}

#[test]
fn disabled_or_unknown_method_is_invalid_argument() {
    let server = ClientMfaServer::new(b"k".to_vec());
    assert_eq!(
        server.check_start(&request(1), lookup(user(true, false), &[], None)).unwrap_err(),
        MfaError::InvalidArgument
    );
    assert_eq!(
        server.check_start(&request(0), lookup(user(false, true), &[], None)).unwrap_err(),
        MfaError::InvalidArgument
    );
    assert_eq!(
        server.check_start(&request(5), lookup(user(true, true), &[], None)).unwrap_err(),
        MfaError::InvalidArgument
    );
    assert_eq!(mfa_method_from_wire(0), Some(MfaMethod::Totp));
    assert_eq!(mfa_method_from_wire(1), Some(MfaMethod::Email));
    assert_eq!(mfa_method_from_wire(-1), None);
}

#[test]
fn email_start_mails_the_user_once() {
    let server = ClientMfaServer::new(b"k".to_vec());
    let plan = server.check_start(&request(1), lookup(user(false, true), &[], None)).unwrap();
    assert_eq!(plan.email_code_recipient().unwrap().email, "alice@example.com");
    let plan = server.check_start(&request(0), lookup(user(true, true), &[], None)).unwrap();
    assert!(plan.email_code_recipient().is_none());
}

#[test]
fn start_opens_one_session_per_key() {
    let (mut server, first) = started_server(0);
    assert_eq!(server.session(PUBKEY).unwrap().method, MfaMethod::Totp);
    let plan = server.check_start(&request(1), lookup(user(true, true), &[], None)).unwrap();
    let second = server.start_client_mfa_login(plan, NOW + 5).unwrap().token;
    assert_ne!(first, second);
    assert_eq!(server.session(PUBKEY).unwrap().method, MfaMethod::Email);
}

#[test]
fn correct_code_authorizes_and_ends_the_session() {
    let (mut server, token) = started_server(0);
    let pubkey = server.find_login_session(&token, NOW + 10).unwrap();
    assert_eq!(pubkey, PUBKEY);
    let outcome = server.finish_client_mfa_login(&pubkey, true, Some(row()), PSK.to_string(), NOW + 10, ip(), agent(), 1_700_000_100);
    match outcome {
        FinishOutcome::Authorized { network_device, gateway, activity, preshared_key } => {
            assert_eq!(preshared_key, PSK);
            assert!(network_device.is_authorized);
            assert_eq!(network_device.preshared_key.as_deref(), Some(PSK));
            assert_eq!(network_device.authorized_at, Some(NOW + 10));
            let GatewayEvent::DeviceCreated(info) = gateway;
            assert_eq!(info.device.id, 7);
            assert_eq!(info.network_info.len(), 1);
            assert_eq!(info.network_info[0].network_id, 1);
            assert_eq!(info.network_info[0].device_wireguard_ips, vec!["10.0.0.2".to_string()]);
            assert_eq!(info.network_info[0].preshared_key.as_deref(), Some(PSK));
            assert!(info.network_info[0].is_authorized);
            assert_eq!(activity.context.user_id, 3);
            assert_eq!(activity.context.username, "alice");
            assert_eq!(activity.context.ip, "192.0.2.1");
            assert_eq!(activity.context.user_agent, "client/1.0");
            assert_eq!(activity.context.timestamp, 1_700_000_100);
            match activity.event {
                BidiStreamEventType::DesktopClientMfa(DesktopClientMfaEvent::Connected { device, location, method }) => {
                    assert_eq!(device.id, 7);
                    assert_eq!(location.id, 1);
                    assert_eq!(method, MFAMethod::OneTimePassword);
                }
                other => panic!("unexpected activity {other:?}"),
            }
        }
        other => panic!("unexpected outcome {other:?}"),
    }
    server.end_login_session(&pubkey);
    assert_eq!(server.find_login_session(&token, NOW + 11), Err(MfaError::InvalidArgument));
}

#[test]
fn wrong_code_is_refused_and_retry_succeeds() {
    let (server, token) = started_server(1);
    let pubkey = server.find_login_session(&token, NOW + 1).unwrap();
    match server.finish_client_mfa_login(&pubkey, false, Some(row()), PSK.to_string(), NOW + 1, ip(), agent(), 1_700_000_100) {
        FinishOutcome::Refused { error, failure_event } => {
            assert_eq!(error, MfaError::Unauthenticated);
            let failure_event = failure_event.unwrap();
            assert_eq!(failure_event.context.username, "alice");
            match failure_event.event {
                BidiStreamEventType::DesktopClientMfa(DesktopClientMfaEvent::Failed { device, location, method }) => {
                    assert_eq!(device.id, 7);
                    assert_eq!(location.id, 1);
                    assert_eq!(method, MFAMethod::Email);
                }
                other => panic!("unexpected activity {other:?}"),
            }
        }
        other => panic!("unexpected outcome {other:?}"),
    }
    assert!(server.session(PUBKEY).is_some());
    let pubkey = server.find_login_session(&token, NOW + 2).unwrap();
    assert!(matches!(
        server.finish_client_mfa_login(&pubkey, true, Some(row()), PSK.to_string(), NOW + 2, ip(), agent(), 1_700_000_100),
        FinishOutcome::Authorized { .. }
    ));
}

#[test]
fn missing_or_foreign_authorization_row_is_internal() {
    let (server, token) = started_server(0);
    let pubkey = server.find_login_session(&token, NOW).unwrap();
    assert!(matches!(
        server.finish_client_mfa_login(&pubkey, true, None, PSK.to_string(), NOW, ip(), agent(), 1_700_000_100),
        FinishOutcome::Refused { error: MfaError::Internal, failure_event: None }
    ));
    let mut foreign = row();
    foreign.device_id = 8;
    assert!(matches!(
        server.finish_client_mfa_login(&pubkey, true, Some(foreign), PSK.to_string(), NOW, ip(), agent(), 1_700_000_100),
        FinishOutcome::Refused { error: MfaError::Internal, failure_event: None }
    ));
}

#[test]
fn finish_without_session_is_invalid_argument() {
    let server = ClientMfaServer::new(b"k".to_vec());
    assert!(matches!(
        server.finish_client_mfa_login(PUBKEY, true, Some(row()), PSK.to_string(), NOW, ip(), agent(), 1_700_000_100),
        FinishOutcome::Refused { error: MfaError::InvalidArgument, failure_event: None }
    ));
}

#[test]
fn altered_token_is_rejected_even_with_a_session() {
    let (server, token) = started_server(0);
    let altered = format!("{}x", token);
    assert_eq!(server.find_login_session(&altered, NOW), Err(MfaError::InvalidArgument));
    let foreign = ClientMfaServer::new(b"another secret".to_vec());
    assert_eq!(foreign.find_login_session(&token, NOW), Err(MfaError::InvalidArgument));
}

#[test]
fn expired_token_does_not_find_the_session() {
    let (server, token) = started_server(0);
    assert_eq!(server.find_login_session(&token, NOW + 300), Err(MfaError::InvalidArgument));
}

#[test]
fn totp_login_scenario() {
    let (mut server, token) = started_server(0);
    assert!(!token.is_empty());
    assert_eq!(token.len(), 104 + PUBKEY.len());
    let pubkey = server.find_login_session(&token, NOW + 30).unwrap();
    let refused = server.finish_client_mfa_login(&pubkey, false, Some(row()), PSK.to_string(), NOW + 30, ip(), agent(), 1_700_000_100);
    assert!(matches!(refused, FinishOutcome::Refused { error: MfaError::Unauthenticated, .. }));
    let pubkey = server.find_login_session(&token, NOW + 40).unwrap();
    match server.finish_client_mfa_login(&pubkey, true, Some(row()), PSK.to_string(), NOW + 40, ip(), agent(), 1_700_000_100) {
        FinishOutcome::Authorized { network_device, preshared_key, .. } => {
            assert_eq!(preshared_key.len(), 44);
            assert!(network_device.is_authorized);
            assert!(network_device.authorized_at.is_some());
        }
        other => panic!("unexpected outcome {other:?}"),
    }
    server.end_login_session(&pubkey);
    assert!(server.session(PUBKEY).is_none());
}
