//! Human-readable device descriptions from HTTP user-agent headers.
use vstd::prelude::*;

use crate::model::Id;

verus! {

#[verifier::external_type_specification]
#[verifier::external_body]
pub struct ExUserAgentParser(uaparser::UserAgentParser);

/// The parts of a parsed user agent that device descriptions read.
#[derive(Debug)]
pub struct UserAgentClient {
    pub device_family: String,
    pub device_brand: Option<String>,
    pub device_model: Option<String>,
    pub os_family: String,
    pub os_major: Option<String>,
    pub os_minor: Option<String>,
    pub os_patch: Option<String>,
    pub browser_family: String,
}

/// Relies on uaparser's `Parser::parse` for `UserAgentParser`, which matches
/// `user_agent` against the parser's device, OS and browser regexes; the
/// fields are copied out as they come.
#[verifier::external_body]
fn parse_user_agent(parser: &uaparser::UserAgentParser, user_agent: &str) -> (r: UserAgentClient) {
    let client = uaparser::Parser::parse(parser, user_agent);
    UserAgentClient {
        device_family: client.device.family.to_string(),
        device_brand: client.device.brand.map(|b| b.to_string()),
        device_model: client.device.model.map(|m| m.to_string()),
        os_family: client.os.family.to_string(),
        os_major: client.os.major.map(|v| v.to_string()),
        os_minor: client.os.minor.map(|v| v.to_string()),
        os_patch: client.os.patch.map(|v| v.to_string()),
        browser_family: client.user_agent.family.to_string(),
    }
}

/// The OS version: major, then `.minor`, then `.patch`, each only after the
/// one before it.
pub open spec fn os_version(c: UserAgentClient) -> Seq<char> {
    match c.os_major {
        None => Seq::empty(),
        Some(major) => major@ + match c.os_minor {
            None => Seq::empty(),
            Some(minor) => seq!['.'] + minor@ + match c.os_patch {
                None => Seq::empty(),
                Some(patch) => seq!['.'] + patch@,
            },
        },
    }
}

/// `<model>, OS: <os family> <version>, <browser>`, with `unknown model` where
/// no model was recognized.
pub open spec fn device_description(c: UserAgentClient) -> Seq<char> {
    let model = match c.device_model {
        Some(m) => m@,
        None => "unknown model"@,
    };
    model + ", OS: "@ + c.os_family@ + seq![' '] + os_version(c) + ", "@ + c.browser_family@
}

/// Describes the device of a parsed user agent.
pub fn get_user_agent_device(client: &UserAgentClient) -> (r: String)
    ensures
        r@ == device_description(*client),
{
    proof {
        reveal_strlit("unknown model");
        reveal_strlit(", OS: ");
        reveal_strlit(" ");
        reveal_strlit(", ");
        reveal_strlit(".");
    }
    let mut version = String::new();
    match &client.os_major {
        None => {},
        Some(major) => {
            version.append(major.as_str());
            match &client.os_minor {
                None => {},
                Some(minor) => {
                    version.append(".");
                    version.append(minor.as_str());
                    match &client.os_patch {
                        None => {},
                        Some(patch) => {
                            version.append(".");
                            version.append(patch.as_str());
                        },
                    }
                },
            }
        },
    }
    assert(version@ =~= os_version(*client));
    let mut r = match &client.device_model {
        Some(m) => m.clone(),
        None => "unknown model".to_owned(),
    };
    r.append(", OS: ");
    r.append(client.os_family.as_str());
    r.append(" ");
    r.append(version.as_str());
    r.append(", ");
    r.append(client.browser_family.as_str());
    assert(r@ =~= device_description(*client));
    r
}

/// A login from a device, as the store records it to spot new devices.
#[derive(Debug)]
pub struct DeviceLoginEvent {
    pub user_id: Id,
    pub ip_address: String,
    pub model: Option<String>,
    pub family: String,
    pub brand: Option<String>,
    pub os_family: String,
    pub browser: String,
    pub event_type: String,
}

/// The login record of `user_id` from the device that `client` describes.
pub fn get_user_agent_device_login_data(
    user_id: Id,
    ip_address: String,
    event_type: String,
    client: &UserAgentClient,
) -> (r: DeviceLoginEvent)
    ensures
        r.user_id == user_id,
        r.ip_address == ip_address,
        r.event_type == event_type,
        r.model == client.device_model,
        r.brand == client.device_brand,
        r.family == client.device_family,
        r.os_family == client.os_family,
        r.browser == client.browser_family,
{
    let model = match &client.device_model {
        Some(m) => Some(m.clone()),
        None => None,
    };
    let brand = match &client.device_brand {
        Some(b) => Some(b.clone()),
        None => None,
    };
    DeviceLoginEvent {
        user_id,
        ip_address,
        model,
        family: client.device_family.clone(),
        brand,
        os_family: client.os_family.clone(),
        browser: client.browser_family.clone(),
        event_type,
    }
}

/// Describes the device that sent `user_agent`, as `parser` recognizes it.
pub fn get_device_info(parser: &uaparser::UserAgentParser, user_agent: &str) -> (r: String)
    ensures
        exists|c: UserAgentClient| r@ == device_description(c),
{
    let client = parse_user_agent(parser, user_agent);
    get_user_agent_device(&client)
}

} // verus!
