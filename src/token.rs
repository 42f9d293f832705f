//! Signed, time-limited bearer tokens that bind a device's public key to a
//! desktop-client MFA login.
//!
//! A token is the claims text, a `.` and the HMAC-SHA256 signature of the
//! claims text. The claims text is the purpose tag `desktop-client-mfa:`, the
//! expiry (seconds since the Unix epoch) and the subject's length as twenty
//! decimal digits each, a `:`, and the subject. Every field therefore sits at
//! a position that the text itself fixes.
use vstd::prelude::*;

use crate::digits::{
    all_digits, digits_value, fixed_digits, lemma_digits_round_trip, lemma_fixed_digits_u64,
    push_fixed_digits, read_u64_digits,
};
use crate::model::MfaError;

verus! {

/// How long a login token stays valid, in seconds.
pub const TOKEN_TTL_SECONDS: u64 = 300;

/// Upper bound on the length of a signing key or a signed message.
pub const MAX_SIGNED_LEN: u64 = 0x1000_0000_0000;

pub open spec fn purpose_tag() -> Seq<char> {
    seq!['d', 'e', 's', 'k', 't', 'o', 'p', '-', 'c', 'l', 'i', 'e', 'n', 't', '-', 'm', 'f', 'a', ':']
}

pub open spec fn claims_text(subject: Seq<char>, expiry: u64) -> Seq<char> {
    purpose_tag() + fixed_digits(expiry as nat, 20) + fixed_digits(subject.len(), 20) + seq![':']
        + subject
}

/// HMAC-SHA256 of the UTF-8 bytes of `message` under `key`, base64url-encoded.
pub uninterp spec fn hs256_signature(key: Seq<u8>, message: Seq<char>) -> Seq<char>;

/// The token that `key` signs for `subject`, valid until `expiry`.
pub open spec fn signed_token(key: Seq<u8>, subject: Seq<char>, expiry: u64) -> Seq<char> {
    claims_text(subject, expiry) + seq!['.'] + hs256_signature(key, claims_text(subject, expiry))
}

/// `token` was signed with `key` for `subject` and has not expired at `now`.
pub open spec fn token_accepted(key: Seq<u8>, token: Seq<char>, now: u64, subject: Seq<char>) -> bool {
    exists|expiry: u64| now < expiry && token == #[trigger] signed_token(key, subject, expiry)
}

/// `token` is a claims text for some subject and expiry, a `.`, and anything.
pub open spec fn framed(token: Seq<char>, subject: Seq<char>, expiry: u64, rest: Seq<char>) -> bool {
    token == claims_text(subject, expiry) + seq!['.'] + rest
}

pub proof fn lemma_framed_layout(token: Seq<char>, subject: Seq<char>, expiry: u64, rest: Seq<char>)
    requires
        framed(token, subject, expiry, rest),
        subject.len() <= u64::MAX,
    ensures
        token.len() == 61 + subject.len() + rest.len(),
        token.subrange(0, 19) == purpose_tag(),
        token.subrange(19, 39) == fixed_digits(expiry as nat, 20),
        token.subrange(39, 59) == fixed_digits(subject.len(), 20),
        token[59] == ':',
        token.subrange(60, 60 + subject.len() as int) == subject,
        token[60 + subject.len() as int] == '.',
        token.subrange(0, 60 + subject.len() as int) == claims_text(subject, expiry),
        token.subrange(61 + subject.len() as int, token.len() as int) == rest,
{
    lemma_fixed_digits_u64(expiry);
    lemma_fixed_digits_u64(subject.len() as u64);
    let c = claims_text(subject, expiry);
    assert(c.len() == 60 + subject.len() as int);
    assert(token.subrange(0, 19) =~= purpose_tag());
    assert(token.subrange(19, 39) =~= fixed_digits(expiry as nat, 20));
    assert(token.subrange(39, 59) =~= fixed_digits(subject.len(), 20));
    assert(token.subrange(60, 60 + subject.len() as int) =~= subject);
    assert(token.subrange(0, 60 + subject.len() as int) =~= c);
    assert(token.subrange(61 + subject.len() as int, token.len() as int) =~= rest);
}

/// A subject that a token accepts is no longer than the token.
pub proof fn lemma_accepted_subject_len(key: Seq<u8>, token: Seq<char>, now: u64, subject: Seq<char>)
    requires
        token_accepted(key, token, now, subject),
    ensures
        subject.len() <= token.len(),
{
    let e = choose|e: u64| now < e && token == #[trigger] signed_token(key, subject, e);
}

/// Two accepted readings of one token name one subject.
pub proof fn lemma_token_subject_unique(
    key: Seq<u8>,
    token: Seq<char>,
    now: u64,
    s1: Seq<char>,
    s2: Seq<char>,
)
    requires
        token_accepted(key, token, now, s1),
        token_accepted(key, token, now, s2),
        token.len() < MAX_SIGNED_LEN,
    ensures
        s1 == s2,
{
    lemma_accepted_subject_len(key, token, now, s1);
    lemma_accepted_subject_len(key, token, now, s2);
    let e1 = lemma_accepted_layout(key, token, now, s1);
    let e2 = lemma_accepted_layout(key, token, now, s2);
    assert(s1.len() == s2.len());
}

/// The layout of a token that `key` accepts for `subject` at `now`.
pub proof fn lemma_accepted_layout(key: Seq<u8>, token: Seq<char>, now: u64, subject: Seq<char>) -> (expiry: u64)
    requires
        token_accepted(key, token, now, subject),
        subject.len() <= u64::MAX,
    ensures
        now < expiry,
        token.len() == 61 + subject.len() + hs256_signature(key, claims_text(subject, expiry)).len(),
        token.subrange(0, 19) == purpose_tag(),
        all_digits(token.subrange(19, 39)),
        digits_value(token.subrange(19, 39)) == expiry,
        all_digits(token.subrange(39, 59)),
        digits_value(token.subrange(39, 59)) == subject.len(),
        token[59] == ':',
        token.subrange(60, 60 + subject.len() as int) == subject,
        token[60 + subject.len() as int] == '.',
        token.subrange(0, 60 + subject.len() as int) == claims_text(subject, expiry),
        token.subrange(61 + subject.len() as int, token.len() as int) == hs256_signature(
            key,
            claims_text(subject, expiry),
        ),
{
    let expiry = choose|e: u64| now < e && token == #[trigger] signed_token(key, subject, e);
    lemma_framed_layout(token, subject, expiry, hs256_signature(key, claims_text(subject, expiry)));
    lemma_fixed_digits_u64(expiry);
    lemma_fixed_digits_u64(subject.len() as u64);
    expiry
}

/// Relies on jsonwebtoken::crypto::sign with HS256, which signs the bytes of
/// `message` with HMAC-SHA256 under `key` and base64url-encodes the digest;
/// for the HMAC algorithms it always returns `Ok`. The digest is 32 bytes,
/// so its unpadded base64url text is 43 characters long.
#[verifier::external_body]
fn sign_hs256(key: &[u8], message: &str) -> (r: String)
    requires
        key@.len() < MAX_SIGNED_LEN,
        message@.len() < MAX_SIGNED_LEN,
    ensures
        r@ == hs256_signature(key@, message@),
        r@.len() == 43,
{
    let encoding_key = jsonwebtoken::EncodingKey::from_secret(key);
    jsonwebtoken::crypto::sign(message.as_bytes(), &encoding_key, jsonwebtoken::Algorithm::HS256)
        .unwrap_or_default()
}

/// Mints the token for `subject` that expires `TOKEN_TTL_SECONDS` after `now`.
/// Fails with `Internal` only where that expiry does not fit a `u64`.
pub fn issue_token(key: &Vec<u8>, subject: &str, now: u64) -> (r: Result<String, MfaError>)
    requires
        key@.len() < MAX_SIGNED_LEN,
        subject@.len() < MAX_SIGNED_LEN - 61,
    ensures
        now <= u64::MAX - TOKEN_TTL_SECONDS ==> (r matches Ok(t) && t@ == signed_token(
            key@,
            subject@,
            (now + TOKEN_TTL_SECONDS) as u64,
        ) && t@.len() == 104 + subject@.len()),
        now > u64::MAX - TOKEN_TTL_SECONDS ==> r == Err::<String, MfaError>(MfaError::Internal),
{
    if now > u64::MAX - TOKEN_TTL_SECONDS {
        return Err(MfaError::Internal);
    }
    let expiry = now + TOKEN_TTL_SECONDS;
    let subject_len = subject.unicode_len();
    let mut claims = String::new();
    proof {
        reveal_strlit("desktop-client-mfa:");
        reveal_strlit(":");
        reveal_strlit(".");
    }
    claims.append("desktop-client-mfa:");
    push_fixed_digits(expiry, 20, &mut claims);
    push_fixed_digits(subject_len as u64, 20, &mut claims);
    claims.append(":");
    claims.append(subject);
    assert(claims@ =~= claims_text(subject@, expiry));
    proof {
        lemma_fixed_digits_u64(expiry);
        lemma_fixed_digits_u64(subject_len as u64);
    }
    let signature = sign_hs256(key.as_slice(), claims.as_str());
    let mut token = claims;
    token.append(".");
    token.append(signature.as_str());
    assert(token@ =~= signed_token(key@, subject@, expiry));
    Ok(token)
}

/// What `parse_token` checks, field by field: the purpose tag, the two
/// digit fields, the separators, the signature over the claims text, and
/// an expiry after `now`.
pub open spec fn token_well_formed(key: Seq<u8>, token: Seq<char>, now: u64) -> bool {
    let expiry = digits_value(token.subrange(19, 39));
    let len = digits_value(token.subrange(39, 59)) as int;
    &&& token.len() >= 61
    &&& token.subrange(0, 19) == purpose_tag()
    &&& all_digits(token.subrange(19, 39))
    &&& expiry <= u64::MAX
    &&& all_digits(token.subrange(39, 59))
    &&& len <= u64::MAX
    &&& token[59] == ':'
    &&& 61 + len <= token.len()
    &&& token[60 + len] == '.'
    &&& now < expiry
    &&& token.subrange(61 + len, token.len() as int) == hs256_signature(
        key,
        token.subrange(0, 60 + len),
    )
}

/// A token that fails any check is accepted for no subject.
proof fn lemma_ill_formed_rejected(key: Seq<u8>, token: Seq<char>, now: u64)
    requires
        !token_well_formed(key, token, now),
        token.len() < MAX_SIGNED_LEN,
    ensures
        forall|s: Seq<char>| !#[trigger] token_accepted(key, token, now, s),
{
    assert forall|s: Seq<char>| !#[trigger] token_accepted(key, token, now, s) by {
        if token_accepted(key, token, now, s) {
            lemma_accepted_subject_len(key, token, now, s);
            let e = lemma_accepted_layout(key, token, now, s);
            assert(token_well_formed(key, token, now));
        }
    }
}

/// Relies on jsonwebtoken::crypto::verify with HS256, which signs `message`
/// under `key` again and compares the result with `signature` in constant
/// time; for the HMAC algorithms it always returns `Ok`.
#[verifier::external_body]
fn verify_hs256(key: &[u8], message: &str, signature: &str) -> (r: bool)
    requires
        key@.len() < MAX_SIGNED_LEN,
        message@.len() < MAX_SIGNED_LEN,
    ensures
        r == (signature@ == hs256_signature(key@, message@)),
{
    let decoding_key = jsonwebtoken::DecodingKey::from_secret(key);
    jsonwebtoken::crypto::verify(
        signature,
        message.as_bytes(),
        &decoding_key,
        jsonwebtoken::Algorithm::HS256,
    ).unwrap_or(false)
}

/// Checks `token` against `key` at time `now` and returns the subject it
/// was issued for. Any tampering, a foreign purpose tag, a malformed layout or
/// an expiry at or before `now` rejects it with `InvalidArgument`.
pub fn parse_token(key: &Vec<u8>, token: &str, now: u64) -> (r: Result<String, MfaError>)
    requires
        key@.len() < MAX_SIGNED_LEN,
        token@.len() < MAX_SIGNED_LEN,
    ensures
        r matches Ok(s) ==> token_accepted(key@, token@, now, s@),
        r is Err ==> r == Err::<String, MfaError>(MfaError::InvalidArgument),
        r is Err ==> forall|s: Seq<char>| !#[trigger] token_accepted(key@, token@, now, s),
{
    let len = token.unicode_len();
    if len < 61 {
        proof {
            lemma_ill_formed_rejected(key@, token@, now);
        }
        return Err(MfaError::InvalidArgument);
    }
    proof {
        reveal_strlit("desktop-client-mfa:");
    }
    let tag = token.substring_char(0, 19).to_owned();
    let expected_tag = "desktop-client-mfa:".to_owned();
    assert(expected_tag@ =~= purpose_tag());
    if !(tag == expected_tag) {
        proof {
            lemma_ill_formed_rejected(key@, token@, now);
        }
        return Err(MfaError::InvalidArgument);
    }
    let expiry = match read_u64_digits(token, 19) {
        Some(v) => v,
        None => {
            proof {
                lemma_ill_formed_rejected(key@, token@, now);
            }
            return Err(MfaError::InvalidArgument);
        },
    };
    let subject_len = match read_u64_digits(token, 39) {
        Some(v) => v,
        None => {
            proof {
                lemma_ill_formed_rejected(key@, token@, now);
            }
            return Err(MfaError::InvalidArgument);
        },
    };
    if token.get_char(59) != ':' || subject_len > (len - 61) as u64 {
        proof {
            lemma_ill_formed_rejected(key@, token@, now);
        }
        return Err(MfaError::InvalidArgument);
    }
    let subject_len = subject_len as usize;
    if token.get_char(60 + subject_len) != '.' || expiry <= now {
        proof {
            lemma_ill_formed_rejected(key@, token@, now);
        }
        return Err(MfaError::InvalidArgument);
    }
    let claims = token.substring_char(0, 60 + subject_len);
    let signature = token.substring_char(61 + subject_len, len);
    if !verify_hs256(key.as_slice(), claims, signature) {
        proof {
            lemma_ill_formed_rejected(key@, token@, now);
        }
        return Err(MfaError::InvalidArgument);
    }
    let subject = token.substring_char(60, 60 + subject_len).to_owned();
    proof {
        let t = token@;
        lemma_digits_round_trip(t.subrange(19, 39));
        lemma_digits_round_trip(t.subrange(39, 59));
        assert(claims@ =~= claims_text(subject@, expiry));
        assert(t =~= claims@ + seq!['.'] + signature@);
        assert(token_accepted(key@, token@, now, subject@)) by {
            assert(t == signed_token(key@, subject@, expiry));
        }
    }
    Ok(subject)
}

} // verus!
