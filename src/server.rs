//! The desktop-client MFA login orchestrator.
//!
//! `start` checks that a device may log in to a location and mints a token;
//! `finish` finds the attempt again by that token and, once the second factor
//! is proven, authorizes the device at the location. Lookups, code checks,
//! mail, storage and channels belong to the caller: each step here takes
//! what they produced and decides.
use vstd::prelude::*;

use crate::authz::{
    is_method_enabled, may_connect, method_enabled, mfa_state_consistent, user_allowed,
    verify_mfa_state, view_groups,
};
use crate::events::{
    BidiRequestContext, BidiStreamEvent, BidiStreamEventType, DesktopClientMfaEvent, DeviceInfo,
    DeviceNetworkInfo, GatewayEvent,
};
use crate::model::{
    stored_method, to_stored_method, Device, Id, MfaError, MfaMethod, User, WireguardNetwork,
    WireguardNetworkDevice,
};
use crate::sessions::{ClientLoginSession, SessionStore};
use crate::token::{
    issue_token, lemma_token_subject_unique, parse_token, signed_token, token_accepted,
    MAX_SIGNED_LEN, TOKEN_TTL_SECONDS,
};

verus! {

/// A client's request to start a login: its public key, the location and the
/// method by its wire number (`0` TOTP, `1` email).
#[derive(Debug)]
pub struct ClientMfaStartRequest {
    pub pubkey: String,
    pub location_id: Id,
    pub method: i32,
}

#[derive(Debug)]
pub struct ClientMfaStartResponse {
    pub token: String,
}

#[derive(Debug)]
pub struct ClientMfaFinishResponse {
    pub preshared_key: String,
}

pub open spec fn method_from_wire(v: i32) -> Option<MfaMethod> {
    if v == 0 {
        Some(MfaMethod::Totp)
    } else if v == 1 {
        Some(MfaMethod::Email)
    } else {
        None
    }
}

/// The method that a wire number names.
pub fn mfa_method_from_wire(v: i32) -> (r: Option<MfaMethod>)
    ensures
        r == method_from_wire(v),
{
    if v == 0 {
        Some(MfaMethod::Totp)
    } else if v == 1 {
        Some(MfaMethod::Email)
    } else {
        None
    }
}

/// What the store returned for a start request: the location by id, the
/// device by public key, the device's owner, the owner's group names and the
/// location's allowed group names (`None`: unrestricted).
#[derive(Debug)]
pub struct StartLookup {
    pub location: Option<WireguardNetwork>,
    pub device: Option<Device>,
    pub user: Option<User>,
    pub user_groups: Vec<String>,
    pub allowed_groups: Option<Vec<String>>,
}

pub open spec fn location_found(req: ClientMfaStartRequest, lookup: StartLookup) -> bool {
    lookup.location matches Some(l) && l.id == req.location_id
}

pub open spec fn device_found(req: ClientMfaStartRequest, lookup: StartLookup) -> bool {
    lookup.device matches Some(d) && d.wireguard_pubkey@ == req.pubkey@
}

pub open spec fn user_found(lookup: StartLookup) -> bool {
    lookup.user matches Some(u) && lookup.device matches Some(d) && u.id == d.user_id
}

/// Why a start request is refused, checked in this order; `None` if it is not.
pub open spec fn start_error(req: ClientMfaStartRequest, lookup: StartLookup) -> Option<MfaError> {
    if !location_found(req, lookup) || !device_found(req, lookup) || !user_found(lookup) {
        Some(MfaError::NotFound)
    } else if !may_connect(view_groups(lookup.allowed_groups), lookup.user_groups@) {
        Some(MfaError::Unauthenticated)
    } else if !mfa_state_consistent(lookup.user.unwrap()) {
        Some(MfaError::Internal)
    } else if method_from_wire(req.method) is None || !method_enabled(
        lookup.user.unwrap(),
        method_from_wire(req.method).unwrap(),
    ) {
        Some(MfaError::InvalidArgument)
    } else {
        None
    }
}

/// The session that an accepted start request opens.
pub open spec fn started_session(req: ClientMfaStartRequest, lookup: StartLookup) -> ClientLoginSession {
    ClientLoginSession {
        method: method_from_wire(req.method).unwrap(),
        location: lookup.location.unwrap(),
        device: lookup.device.unwrap(),
        user: lookup.user.unwrap(),
    }
}

/// An accepted start request: the session to open under `pubkey`.
#[derive(Debug)]
pub struct StartPlan {
    pub pubkey: String,
    pub session: ClientLoginSession,
}

impl StartPlan {
    /// The user to whom a one-time code must be mailed before the session
    /// opens: the session's user for the email method, nobody for TOTP.
    pub fn email_code_recipient(&self) -> (r: Option<&User>)
        ensures
            r is Some <==> self.session.method == MfaMethod::Email,
            r matches Some(u) ==> *u == self.session.user,
    {
        match self.session.method {
            MfaMethod::Email => Some(&self.session.user),
            MfaMethod::Totp => None,
        }
    }
}

/// Why `finish` refuses an attempt for `pubkey`, checked in this order;
/// `None` if the device is authorized.
pub open spec fn finish_error(
    sessions: Map<Seq<char>, ClientLoginSession>,
    pubkey: Seq<char>,
    code_valid: bool,
    network_device: Option<WireguardNetworkDevice>,
) -> Option<MfaError> {
    if !sessions.contains_key(pubkey) {
        Some(MfaError::InvalidArgument)
    } else if !code_valid {
        Some(MfaError::Unauthenticated)
    } else if !(network_device matches Some(nd) && nd.device_id == sessions[pubkey].device.id
        && nd.wireguard_network_id == sessions[pubkey].location.id) {
        Some(MfaError::Internal)
    } else {
        None
    }
}

/// The request context of events about `session`: its user, and where and
/// when the request came from.
pub open spec fn session_context(
    session: ClientLoginSession,
    ip: String,
    user_agent: String,
    timestamp: i64,
) -> BidiRequestContext {
    BidiRequestContext {
        timestamp,
        user_id: session.user.id,
        username: session.user.username,
        ip,
        user_agent,
    }
}

/// The activity event of a login attempt in `session`.
pub open spec fn mfa_activity(
    session: ClientLoginSession,
    context: BidiRequestContext,
    connected: bool,
) -> BidiStreamEvent {
    BidiStreamEvent {
        context,
        event: BidiStreamEventType::DesktopClientMfa(
            if connected {
                DesktopClientMfaEvent::Connected {
                    device: session.device,
                    location: session.location,
                    method: stored_method(session.method),
                }
            } else {
                DesktopClientMfaEvent::Failed {
                    device: session.device,
                    location: session.location,
                    method: stored_method(session.method),
                }
            },
        ),
    }
}

/// What `finish` decided.
#[derive(Debug)]
pub enum FinishOutcome {
    /// The attempt is refused with `error`; `failure_event`, where present,
    /// is the failed attempt to record. The session stays.
    Refused { error: MfaError, failure_event: Option<BidiStreamEvent> },
    /// The device is authorized: persist `network_device`, send `gateway` and
    /// then `activity`, end the session, commit, and hand the client
    /// `preshared_key`.
    Authorized {
        network_device: WireguardNetworkDevice,
        gateway: GatewayEvent,
        activity: BidiStreamEvent,
        preshared_key: String,
    },
}

fn copy_strings(v: &Vec<String>) -> (r: Vec<String>)
    ensures
        r@ == v@,
{
    let mut r: Vec<String> = Vec::new();
    let mut i: usize = 0;
    while i < v.len()
        invariant
            i <= v@.len(),
            r@ == v@.subrange(0, i as int),
        decreases v@.len() - i,
    {
        r.push(v[i].clone());
        i = i + 1;
        assert(r@ =~= v@.subrange(0, i as int));
    }
    assert(v@.subrange(0, v@.len() as int) =~= v@);
    r
}

/// Login attempts in flight and the key that signs their tokens.
pub struct ClientMfaServer {
    sessions: SessionStore,
    signing_key: Vec<u8>,
}

impl ClientMfaServer {
    pub closed spec fn wf(&self) -> bool {
        &&& self.sessions.wf()
        &&& self.signing_key@.len() < MAX_SIGNED_LEN
    }

    /// The attempts in flight, by public key.
    pub closed spec fn sessions(&self) -> Map<Seq<char>, ClientLoginSession> {
        self.sessions@
    }

    pub closed spec fn signing_key(&self) -> Seq<u8> {
        self.signing_key@
    }

    /// A server with no attempt in flight, signing with `signing_key`.
    pub fn new(signing_key: Vec<u8>) -> (r: Self)
        requires
            signing_key@.len() < MAX_SIGNED_LEN,
        ensures
            r.wf(),
            r.sessions() == Map::<Seq<char>, ClientLoginSession>::empty(),
            r.signing_key() == signing_key@,
    {
        ClientMfaServer { sessions: SessionStore::new(), signing_key }
    }

    /// Decides whether a start request may proceed: the location, the device
    /// of the public key and its owner exist, the owner is in an allowed
    /// group, its second-factor state is consistent, and the method is known
    /// and enabled for it.
    pub fn check_start(&self, request: &ClientMfaStartRequest, lookup: StartLookup) -> (r: Result<
        StartPlan,
        MfaError,
    >)
        ensures
            start_error(*request, lookup) matches Some(e) ==> r == Err::<StartPlan, MfaError>(e),
            start_error(*request, lookup) is None ==> (r matches Ok(plan) && plan.pubkey@
                == request.pubkey@ && plan.session == started_session(*request, lookup)),
    {
        let StartLookup { location, device, user, user_groups, allowed_groups } = lookup;
        let location = match location {
            Some(l) => l,
            None => return Err(MfaError::NotFound),
        };
        if location.id != request.location_id {
            return Err(MfaError::NotFound);
        }
        let device = match device {
            Some(d) => d,
            None => return Err(MfaError::NotFound),
        };
        if !(device.wireguard_pubkey == request.pubkey) {
            return Err(MfaError::NotFound);
        }
        let user = match user {
            Some(u) => u,
            None => return Err(MfaError::NotFound),
        };
        if user.id != device.user_id {
            return Err(MfaError::NotFound);
        }
        if !user_allowed(&allowed_groups, &user_groups) {
            return Err(MfaError::Unauthenticated);
        }
        if !verify_mfa_state(&user) {
            return Err(MfaError::Internal);
        }
        let method = match mfa_method_from_wire(request.method) {
            Some(m) => m,
            None => return Err(MfaError::InvalidArgument),
        };
        if !is_method_enabled(&user, method) {
            return Err(MfaError::InvalidArgument);
        }
        Ok(StartPlan {
            pubkey: request.pubkey.clone(),
            session: ClientLoginSession { method, location, device, user },
        })
    }

    /// Opens the session of an accepted start request and returns the token
    /// that finds it again; the token expires `TOKEN_TTL_SECONDS` after
    /// `now`. A session already open for the key is replaced.
    pub fn start_client_mfa_login(&mut self, plan: StartPlan, now: u64) -> (r: Result<
        ClientMfaStartResponse,
        MfaError,
    >)
        requires
            old(self).wf(),
            plan.pubkey@.len() < MAX_SIGNED_LEN - 61,
        ensures
            final(self).wf(),
            final(self).signing_key() == old(self).signing_key(),
            now <= u64::MAX - TOKEN_TTL_SECONDS ==> (r matches Ok(resp) && resp.token@
                == signed_token(
                old(self).signing_key(),
                plan.pubkey@,
                (now + TOKEN_TTL_SECONDS) as u64,
            ) && resp.token@.len() == 104 + plan.pubkey@.len()),
            now <= u64::MAX - TOKEN_TTL_SECONDS ==> final(self).sessions() == old(
                self,
            ).sessions().insert(plan.pubkey@, plan.session),
            now > u64::MAX - TOKEN_TTL_SECONDS ==> r == Err::<ClientMfaStartResponse, MfaError>(
                MfaError::Internal,
            ),
            now > u64::MAX - TOKEN_TTL_SECONDS ==> final(self).sessions() == old(self).sessions(),
    {
        let token = match issue_token(&self.signing_key, plan.pubkey.as_str(), now) {
            Ok(t) => t,
            Err(e) => return Err(e),
        };
        let StartPlan { pubkey, session } = plan;
        self.sessions.insert(pubkey, session);
        Ok(ClientMfaStartResponse { token })
    }

    /// Finds the attempt that `token` was issued for: the token must carry
    /// this server's signature and be unexpired at `now`, and its subject must
    /// have a session open. Anything else is `InvalidArgument`.
    pub fn find_login_session(&self, token: &str, now: u64) -> (r: Result<String, MfaError>)
        requires
            self.wf(),
            token@.len() < MAX_SIGNED_LEN,
        ensures
            r matches Ok(k) ==> token_accepted(self.signing_key(), token@, now, k@)
                && self.sessions().contains_key(k@),
            r is Err ==> r == Err::<String, MfaError>(MfaError::InvalidArgument),
            r is Err ==> forall|k: Seq<char>|
                #[trigger] token_accepted(self.signing_key(), token@, now, k) ==> !self.sessions().contains_key(k),
    {
        let pubkey = match parse_token(&self.signing_key, token, now) {
            Ok(k) => k,
            Err(e) => return Err(e),
        };
        match self.sessions.get(pubkey.as_str()) {
            Some(_) => Ok(pubkey),
            None => {
                proof {
                    assert forall|k: Seq<char>| #[trigger]
                        token_accepted(self.signing_key(), token@, now, k) implies !self.sessions().contains_key(k) by {
                        lemma_token_subject_unique(self.signing_key(), token@, now, k, pubkey@);
                    }
                }
                Err(MfaError::InvalidArgument)
            },
        }
    }

    /// The attempt open for `pubkey`, if any.
    pub fn session(&self, pubkey: &str) -> (r: Option<&ClientLoginSession>)
        requires
            self.wf(),
        ensures
            r matches Some(s) ==> self.sessions().contains_key(pubkey@) && self.sessions()[pubkey@]
                == *s,
            r is None ==> !self.sessions().contains_key(pubkey@),
    {
        self.sessions.get(pubkey)
    }

    /// Decides the second phase of the attempt open for `pubkey`, given
    /// whether the submitted code is valid for the session's method and user,
    /// the stored authorization of the device at the location, a freshly
    /// generated pre-shared key, the time `now`, and the client's address,
    /// user agent and the event time for the activity log; the events name
    /// the session's user. Nothing changes here: the
    /// session ends only through `end_login_session`.
    pub fn finish_client_mfa_login(
        &self,
        pubkey: &str,
        code_valid: bool,
        network_device: Option<WireguardNetworkDevice>,
        preshared_key: String,
        now: u64,
        ip: String,
        user_agent: String,
        timestamp: i64,
    ) -> (r: FinishOutcome)
        requires
            self.wf(),
        ensures
            ({
                let s = self.sessions()[pubkey@];
                let context = session_context(s, ip, user_agent, timestamp);
                let err = finish_error(self.sessions(), pubkey@, code_valid, network_device);
                &&& err == Some(MfaError::Unauthenticated) ==> r == FinishOutcome::Refused {
                    error: MfaError::Unauthenticated,
                    failure_event: Some(mfa_activity(s, context, false)),
                }
                &&& (err is Some && err != Some(MfaError::Unauthenticated)) ==> r
                    == FinishOutcome::Refused { error: err.unwrap(), failure_event: None }
                &&& err is None ==> (r matches FinishOutcome::Authorized {
                    network_device: nd,
                    gateway: GatewayEvent::DeviceCreated(info),
                    activity,
                    preshared_key: psk,
                } && psk == preshared_key && activity == mfa_activity(s, context, true)
                    && nd.wireguard_network_id == network_device.unwrap().wireguard_network_id
                    && nd.device_id == network_device.unwrap().device_id && nd.wireguard_ips
                    == network_device.unwrap().wireguard_ips && nd.preshared_key == Some(
                    preshared_key,
                ) && nd.is_authorized && nd.authorized_at == Some(now) && info.device
                    == s.device && info.network_info@.len() == 1
                    && info.network_info@[0].network_id == s.location.id
                    && info.network_info@[0].device_wireguard_ips@ == nd.wireguard_ips@
                    && info.network_info@[0].preshared_key == Some(preshared_key)
                    && info.network_info@[0].is_authorized)
            }),
    {
        let session = match self.sessions.get(pubkey) {
            Some(s) => s,
            None => return FinishOutcome::Refused { error: MfaError::InvalidArgument, failure_event: None },
        };
        let method = to_stored_method(session.method);
        let context = BidiRequestContext {
            timestamp,
            user_id: session.user.id,
            username: session.user.username.clone(),
            ip,
            user_agent,
        };
        if !code_valid {
            let event = BidiStreamEvent {
                context,
                event: BidiStreamEventType::DesktopClientMfa(
                    DesktopClientMfaEvent::Failed {
                        device: session.device.copy(),
                        location: session.location.copy(),
                        method,
                    },
                ),
            };
            return FinishOutcome::Refused { error: MfaError::Unauthenticated, failure_event: Some(event) };
        }
        let mut network_device = match network_device {
            Some(nd) => nd,
            None => return FinishOutcome::Refused { error: MfaError::Internal, failure_event: None },
        };
        if network_device.device_id != session.device.id || network_device.wireguard_network_id
            != session.location.id {
            return FinishOutcome::Refused { error: MfaError::Internal, failure_event: None };
        }
        network_device.preshared_key = Some(preshared_key.clone());
        network_device.is_authorized = true;
        network_device.authorized_at = Some(now);
        let network_info = DeviceNetworkInfo {
            network_id: session.location.id,
            device_wireguard_ips: copy_strings(&network_device.wireguard_ips),
            preshared_key: Some(preshared_key.clone()),
            is_authorized: true,
        };
        let mut infos: Vec<DeviceNetworkInfo> = Vec::new();
        infos.push(network_info);
        let gateway = GatewayEvent::DeviceCreated(
            DeviceInfo { device: session.device.copy(), network_info: infos },
        );
        let activity = BidiStreamEvent {
            context,
            event: BidiStreamEventType::DesktopClientMfa(
                DesktopClientMfaEvent::Connected {
                    device: session.device.copy(),
                    location: session.location.copy(),
                    method,
                },
            ),
        };
        FinishOutcome::Authorized { network_device, gateway, activity, preshared_key }
    }

    /// Ends the attempt open for `pubkey` once its authorization went out.
    pub fn end_login_session(&mut self, pubkey: &str)
        requires
            old(self).wf(),
        ensures
            final(self).wf(),
            final(self).signing_key() == old(self).signing_key(),
            final(self).sessions() == old(self).sessions().remove(pubkey@),
    {
        let _ = self.sessions.remove(pubkey);
    }
}

} // verus!
