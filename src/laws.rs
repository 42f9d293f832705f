//! Properties of the login protocol that hold across its steps.
use vstd::prelude::*;

use crate::authz::{may_connect, shares_group, view_groups};
use crate::model::{MfaError, WireguardNetworkDevice};
use crate::model::MfaMethod;
use crate::server::{
    device_found, finish_error, location_found, method_from_wire, start_error, started_session,
    user_found, ClientMfaStartRequest, StartLookup,
};
use crate::sessions::ClientLoginSession;
use crate::token::{
    claims_text, framed, hs256_signature, lemma_accepted_layout, lemma_framed_layout,
    lemma_token_subject_unique, signed_token, token_accepted, MAX_SIGNED_LEN, TOKEN_TTL_SECONDS,
};
use crate::digits::lemma_fixed_digits_u64;

verus! {

/// A start request for a public key that no device has is refused with
/// `NotFound`, whatever else the store returned. The check runs on a shared
/// reference to the server, so no session opens.
pub proof fn lemma_unknown_key_not_found(req: ClientMfaStartRequest, lookup: StartLookup)
    requires
        !device_found(req, lookup),
    ensures
        start_error(req, lookup) == Some(MfaError::NotFound),
{
}

/// At a location that allows a non-empty set of groups, a user in none of
/// them is refused with `Unauthenticated`, and no session opens.
pub proof fn lemma_outside_allowed_groups_unauthenticated(
    req: ClientMfaStartRequest,
    lookup: StartLookup,
)
    requires
        location_found(req, lookup),
        device_found(req, lookup),
        user_found(lookup),
        lookup.allowed_groups matches Some(a) && a@.len() > 0,
        forall|i: int, j: int|
            0 <= i < lookup.allowed_groups.unwrap()@.len() && 0 <= j < lookup.user_groups@.len()
                ==> #[trigger] lookup.allowed_groups.unwrap()@[i]@
                != #[trigger] lookup.user_groups@[j]@,
    ensures
        start_error(req, lookup) == Some(MfaError::Unauthenticated),
{
    assert(!shares_group(lookup.allowed_groups.unwrap()@, lookup.user_groups@));
    assert(!may_connect(view_groups(lookup.allowed_groups), lookup.user_groups@));
}

/// An accepted start request for the email method opens a session whose
/// method is email and whose user is the device's owner, so the one code
/// mail that `StartPlan::email_code_recipient` asks for goes to that user.
pub proof fn lemma_email_start_mails_owner(req: ClientMfaStartRequest, lookup: StartLookup)
    requires
        start_error(req, lookup) is None,
        req.method == 1,
    ensures
        started_session(req, lookup).method == MfaMethod::Email,
        started_session(req, lookup).user == lookup.user.unwrap(),
        lookup.user.unwrap().id == lookup.device.unwrap().user_id,
        lookup.user.unwrap().email_mfa_enabled,
{
    assert(method_from_wire(req.method) == Some(MfaMethod::Email));
}

/// The token minted when a session opens finds that session, and only it,
/// until the token expires; once the session has ended the token finds
/// nothing. With a valid code and the device's authorization at the
/// session's location, the attempt is authorized.
pub proof fn lemma_issued_token_finds_session(
    key: Seq<u8>,
    sessions: Map<Seq<char>, ClientLoginSession>,
    pubkey: Seq<char>,
    session: ClientLoginSession,
    issued_at: u64,
    now: u64,
    network_device: WireguardNetworkDevice,
)
    requires
        issued_at <= u64::MAX - TOKEN_TTL_SECONDS,
        now < issued_at + TOKEN_TTL_SECONDS,
        signed_token(key, pubkey, (issued_at + TOKEN_TTL_SECONDS) as u64).len() < MAX_SIGNED_LEN,
        network_device.device_id == session.device.id,
        network_device.wireguard_network_id == session.location.id,
    ensures
        ({
            let token = signed_token(key, pubkey, (issued_at + TOKEN_TTL_SECONDS) as u64);
            let opened = sessions.insert(pubkey, session);
            &&& token_accepted(key, token, now, pubkey)
            &&& forall|k: Seq<char>| #[trigger] token_accepted(key, token, now, k) ==> k == pubkey
            &&& opened.contains_key(pubkey)
            &&& finish_error(opened, pubkey, true, Some(network_device)) is None
            &&& forall|k: Seq<char>| #[trigger]
                token_accepted(key, token, now, k) ==> !opened.remove(pubkey).contains_key(k)
        }),
{
    let expiry = (issued_at + TOKEN_TTL_SECONDS) as u64;
    let token = signed_token(key, pubkey, expiry);
    assert(token_accepted(key, token, now, pubkey));
    assert forall|k: Seq<char>| #[trigger] token_accepted(key, token, now, k) implies k
        == pubkey by {
        let e = choose|e: u64| now < e && token == #[trigger] signed_token(key, k, e);
        assert(token.len() >= k.len());
        assert(token.len() >= pubkey.len());
        lemma_token_subject_unique(key, token, now, k, pubkey);
    }
}

/// A wrong code is refused with `Unauthenticated` and leaves the attempt
/// open, so the same attempt with a valid code is then authorized.
pub proof fn lemma_wrong_code_keeps_attempt(
    sessions: Map<Seq<char>, ClientLoginSession>,
    pubkey: Seq<char>,
    network_device: WireguardNetworkDevice,
)
    requires
        sessions.contains_key(pubkey),
        network_device.device_id == sessions[pubkey].device.id,
        network_device.wireguard_network_id == sessions[pubkey].location.id,
    ensures
        finish_error(sessions, pubkey, false, Some(network_device)) == Some(
            MfaError::Unauthenticated,
        ),
        finish_error(sessions, pubkey, true, Some(network_device)) is None,
{
}

/// A token whose signature does not match its claims, whether the signature
/// or the subject was altered, is accepted for no subject at any time.
pub proof fn lemma_altered_token_rejected(
    key: Seq<u8>,
    token: Seq<char>,
    subject: Seq<char>,
    expiry: u64,
    signature: Seq<char>,
    now: u64,
)
    requires
        framed(token, subject, expiry, signature),
        signature != hs256_signature(key, claims_text(subject, expiry)),
        token.len() < MAX_SIGNED_LEN,
    ensures
        forall|k: Seq<char>| !#[trigger] token_accepted(key, token, now, k),
{
    assert forall|k: Seq<char>| !#[trigger] token_accepted(key, token, now, k) by {
        if token_accepted(key, token, now, k) {
            let e = choose|e: u64| now < e && token == #[trigger] signed_token(key, k, e);
            assert(token.len() >= k.len());
            let e2 = lemma_accepted_layout(key, token, now, k);
            lemma_framed_layout(token, subject, expiry, signature);
            lemma_fixed_digits_u64(expiry);
            lemma_fixed_digits_u64(subject.len() as u64);
            assert(k.len() == subject.len());
            assert(k == subject);
            assert(e2 == expiry);
        }
    }
}

} // verus!
