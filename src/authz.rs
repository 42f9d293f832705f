use vstd::prelude::*;

use crate::model::{MfaMethod, User};

verus! {

/// Some group of `allowed` has the name of some group of `groups`.
pub open spec fn shares_group(allowed: Seq<String>, groups: Seq<String>) -> bool {
    exists|i: int, j: int|
        0 <= i < allowed.len() && 0 <= j < groups.len() && #[trigger] allowed[i]@
            == #[trigger] groups[j]@
}

/// A member of `groups` may connect to a location whose allow-list is
/// `allowed`: an absent or empty list restricts nobody.
pub open spec fn may_connect(allowed: Option<Seq<String>>, groups: Seq<String>) -> bool {
    match allowed {
        Option::None => true,
        Option::Some(a) => a.len() == 0 || shares_group(a, groups),
    }
}

pub open spec fn view_groups(allowed: Option<Vec<String>>) -> Option<Seq<String>> {
    match allowed {
        Option::None => Option::None,
        Option::Some(v) => Option::Some(v@),
    }
}

/// Whether `name` is the name of one of `groups`.
pub fn contains_group(groups: &Vec<String>, name: &String) -> (r: bool)
    ensures
        r == exists|j: int| 0 <= j < groups@.len() && #[trigger] groups@[j]@ == name@,
{
    let mut j: usize = 0;
    while j < groups.len()
        invariant
            j <= groups@.len(),
            forall|k: int| 0 <= k < j ==> #[trigger] groups@[k]@ != name@,
        decreases groups@.len() - j,
    {
        if groups[j] == *name {
            return true;
        }
        j = j + 1;
    }
    false
}

/// Whether a user in `user_groups` may connect to a location whose allowed
/// groups are `allowed_groups`.
pub fn user_allowed(allowed_groups: &Option<Vec<String>>, user_groups: &Vec<String>) -> (r: bool)
    ensures
        r == may_connect(view_groups(*allowed_groups), user_groups@),
{
    match allowed_groups {
        Option::None => true,
        Option::Some(allowed) => {
            if allowed.len() == 0 {
                return true;
            }
            let mut i: usize = 0;
            while i < allowed.len()
                invariant
                    i <= allowed@.len(),
                    view_groups(*allowed_groups) == Option::Some(allowed@),
                    forall|k: int, j: int|
                        0 <= k < i && 0 <= j < user_groups@.len() ==> #[trigger] allowed@[k]@
                            != #[trigger] user_groups@[j]@,
                decreases allowed@.len() - i,
            {
                if contains_group(user_groups, &allowed[i]) {
                    proof {
                        let j = choose|j: int|
                            0 <= j < user_groups@.len() && #[trigger] user_groups@[j]@
                                == allowed@[i as int]@;
                        assert(allowed@[i as int]@ == user_groups@[j]@);
                    }
                    return true;
                }
                i = i + 1;
            }
            false
        },
    }
}

/// No method is claimed enabled without its secret provisioned.
pub open spec fn mfa_state_consistent(user: User) -> bool {
    &&& user.totp_enabled ==> user.totp_secret is Some
    &&& user.email_mfa_enabled ==> user.email_mfa_secret is Some
}

pub fn verify_mfa_state(user: &User) -> (r: bool)
    ensures
        r == mfa_state_consistent(*user),
{
    (!user.totp_enabled || user.totp_secret.is_some()) && (!user.email_mfa_enabled
        || user.email_mfa_secret.is_some())
}

pub open spec fn method_enabled(user: User, method: MfaMethod) -> bool {
    match method {
        MfaMethod::Totp => user.totp_enabled,
        MfaMethod::Email => user.email_mfa_enabled,
    }
}

/// Whether `method` is enabled for `user`.
pub fn is_method_enabled(user: &User, method: MfaMethod) -> (r: bool)
    ensures
        r == method_enabled(*user, method),
{
    match method {
        MfaMethod::Totp => user.totp_enabled,
        MfaMethod::Email => user.email_mfa_enabled,
    }
}

} // verus!
