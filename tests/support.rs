use defguard_mfa::events::{ApiRequestContext, BidiRequestContext, GrpcRequestContext, InternalEventContext};
use defguard_mfa::groups::Groups;
use defguard_mfa::headers::{get_device_info, get_user_agent_device, get_user_agent_device_login_data, UserAgentClient};
use defguard_mfa::mail::{MailError, Settings, SmtpEncryption, SmtpSettings};
use defguard_mfa::message::EventContext;
use defguard_mfa::model::{to_stored_method, Device, MFAMethod, MfaMethod};

fn settings(port: Option<i32>) -> Settings {
    Settings {
        smtp_server: Some("smtp.example.com".to_string()),
        smtp_port: port,
        smtp_encryption: SmtpEncryption::StartTls,
        smtp_user: Some("mailer".to_string()),
        smtp_password: Some("SECRET-REDACTED".to_string()),
        smtp_sender: Some("noreply@example.com".to_string()),
    }
}

#[test]
fn complete_smtp_settings_are_taken() {
    let s = SmtpSettings::from_settings(settings(Some(587))).unwrap();
    assert_eq!(s.server, "smtp.example.com");
    assert_eq!(s.port, 587);
    assert_eq!(s.encryption, SmtpEncryption::StartTls);
    assert_eq!(s.user, "mailer");
    assert_eq!(s.sender, "noreply@example.com");
}

#[test]
fn incomplete_smtp_settings_are_not_configured() {
    assert_eq!(SmtpSettings::from_settings(settings(None)).unwrap_err(), MailError::SmtpNotConfigured);
    let mut s = settings(Some(25));
    s.smtp_sender = None;
    assert_eq!(SmtpSettings::from_settings(s).unwrap_err(), MailError::SmtpNotConfigured);
}

#[test]
fn out_of_range_port_is_invalid() {
    assert_eq!(SmtpSettings::from_settings(settings(Some(70000))).unwrap_err(), MailError::InvalidPort(70000));
    assert_eq!(SmtpSettings::from_settings(settings(Some(-1))).unwrap_err(), MailError::InvalidPort(-1));
    assert_eq!(SmtpSettings::from_settings(settings(Some(65535))).unwrap().port, 65535);
}

fn client(model: Option<&str>, major: Option<&str>, minor: Option<&str>, patch: Option<&str>) -> UserAgentClient {
    UserAgentClient {
        device_family: "Other".to_string(),
        device_brand: None,
        device_model: model.map(str::to_string),
        os_family: "Linux".to_string(),
        os_major: major.map(str::to_string),
        os_minor: minor.map(str::to_string),
        os_patch: patch.map(str::to_string),
        browser_family: "Firefox".to_string(),
    }
}

#[test]
fn device_description_lists_known_parts() {
    assert_eq!(
        get_user_agent_device(&client(Some("Pixel 7"), Some("14"), Some("2"), Some("1"))),
        "Pixel 7, OS: Linux 14.2.1, Firefox"
    );
    assert_eq!(
        get_user_agent_device(&client(None, Some("6"), None, Some("9"))),
        "unknown model, OS: Linux 6, Firefox"
    );
    assert_eq!(get_user_agent_device(&client(None, None, Some("1"), None)), "unknown model, OS: Linux , Firefox");
}

#[test]
fn device_info_parses_the_header() {
    let yaml = b"user_agent_parsers:\n  - regex: '(Firefox)/(\\d+)\\.(\\d+)'\nos_parsers:\n  - regex: '(Linux)'\ndevice_parsers:\n  - regex: '(Pixel 7)'\n    device_replacement: 'Pixel'\n    brand_replacement: 'Google'\n    model_replacement: '$1'\n";
    let parser = uaparser::UserAgentParser::from_bytes(yaml).unwrap();
    assert_eq!(
        get_device_info(&parser, "Mozilla/5.0 (X11; Linux x86_64) Firefox/120.0"),
        "unknown model, OS: Linux , Firefox"
    );
    assert_eq!(
        get_device_info(&parser, "Mozilla/5.0 (Linux; Android 14; Pixel 7) Firefox/120.0"),
        "Pixel 7, OS: Linux , Firefox"
    );
}

#[test]
fn grpc_context_labels_the_device() {
    let ctx = GrpcRequestContext::new(1_700_000_000, 3, "alice".to_string(), "192.0.2.1".to_string(), 42, "laptop".to_string());
    let event = EventContext::from_grpc(ctx);
    assert_eq!(event.device, "laptop (ID 42)");
    assert_eq!(event.username, "alice");
    let ctx = GrpcRequestContext::new(1_700_000_000, 3, "bob".to_string(), "::1".to_string(), -7, "phone".to_string());
    assert_eq!(EventContext::from_grpc(ctx).device, "phone (ID -7)");
    let ctx = GrpcRequestContext::new(1_700_000_000, 3, "bob".to_string(), "::1".to_string(), 0, "x".to_string());
    assert_eq!(EventContext::from_grpc(ctx).device, "x (ID 0)");
}

#[test]
fn groups_keep_their_names() {
    let g = Groups::new(vec!["admin".to_string(), "vpn".to_string()]);
    assert_eq!(g.groups, vec!["admin".to_string(), "vpn".to_string()]);
}

#[test]
fn methods_map_to_stored_names() {
    assert_eq!(to_stored_method(MfaMethod::Totp), MFAMethod::OneTimePassword);
    assert_eq!(to_stored_method(MfaMethod::Email), MFAMethod::Email);
}

#[test]
fn internal_context_labels_the_device() {
    let device = Device { id: 12, name: "desktop".to_string(), wireguard_pubkey: "key".to_string(), user_id: 3 };
    let ctx = InternalEventContext::new(1_700_000_000, 3, "alice".to_string(), "10.0.0.1".to_string(), device);
    let event = EventContext::from_internal(ctx);
    assert_eq!(event.device, "desktop (ID 12)");
    assert_eq!(event.ip, "10.0.0.1");
}

#[test]
fn request_contexts_carry_their_device_text() {
    let bidi = BidiRequestContext::new(1_700_000_001, 5, "carol".to_string(), "::1".to_string(), "client/2.0".to_string());
    let stamp = bidi.timestamp;
    let event = EventContext::from(bidi);
    assert_eq!(event.device, "client/2.0");
    assert_eq!(event.user_id, 5);
    assert_eq!(event.timestamp, stamp);
    assert_eq!(stamp, 1_700_000_001);
    let api = ApiRequestContext::new(1_700_000_002, 6, "dave".to_string(), "::1".to_string(), "browser".to_string());
    assert_eq!(EventContext::from(api).device, "browser");
}

#[test]
fn login_record_copies_the_parsed_device() {
    let mut c = client(Some("Pixel 7"), Some("14"), None, None);
    c.device_brand = Some("Google".to_string());
    let record = get_user_agent_device_login_data(9, "192.0.2.7".to_string(), "AUTHENTICATION".to_string(), &c);
    assert_eq!(record.user_id, 9);
    assert_eq!(record.ip_address, "192.0.2.7");
    assert_eq!(record.model.as_deref(), Some("Pixel 7"));
    assert_eq!(record.brand.as_deref(), Some("Google"));
    assert_eq!(record.family, "Other");
    assert_eq!(record.os_family, "Linux");
    assert_eq!(record.browser, "Firefox");
    assert_eq!(record.event_type, "AUTHENTICATION");
}
