use vstd::prelude::*;
use crate::access::{AuthLevel, Role, SessionStatus, lower_of, role_of_lowercase};
use crate::codec::{contains_hash, encode_grants, encoded, strings_view};
use crate::digest::md5_hex_of;
use crate::password::HashingAlgorithm;
use crate::store::{InMemoryDb, User, id_taken, links_of, updated_at_id, user_confirmed, users_wf};
use crate::text::owned;

verus! {

/// How long a session token stays valid, in seconds (seven days).
pub const TOKEN_LIFETIME_SECONDS: usize = 604800;

/// The payload of a session token: subject, role, user id, digests of the
/// articles held when it was issued, and expiry.
pub struct Claims {
    pub sub: String,
    pub role: String,
    pub user_id: usize,
    pub accessible_articles: Vec<String>,
    pub exp: usize,
}

/// Whether the account with `id` exists and has confirmed its email.
pub open spec fn confirmed_in(users: Seq<User>, id: usize) -> bool {
    exists|i: int| 0 <= i < users.len() && (#[trigger] users[i]).id == id && users[i].is_verified
}

/// The level a request is served at: no valid token gives the lowest level;
/// an administrator gets the highest; a token that lists the item gives
/// the paid level; otherwise the store's confirmation flag decides.
pub open spec fn level_for(has_token: bool, admin: bool, paid: bool, confirmed: bool) -> AuthLevel {
    if !has_token {
        AuthLevel::NoAuth
    } else if admin {
        AuthLevel::AdminAuth
    } else if paid {
        AuthLevel::PaidAuth
    } else if confirmed {
        AuthLevel::UserConfirmed
    } else {
        AuthLevel::UserUnconfirmed
    }
}

/// The decision of `level_for`, on facts already established.
pub fn resolve_auth_level(has_token: bool, admin: bool, paid: bool, confirmed: bool) -> (r: AuthLevel)
    ensures
        r == level_for(has_token, admin, paid, confirmed),
{
    if !has_token {
        AuthLevel::NoAuth
    } else if admin {
        AuthLevel::AdminAuth
    } else if paid {
        AuthLevel::PaidAuth
    } else if confirmed {
        AuthLevel::UserConfirmed
    } else {
        AuthLevel::UserUnconfirmed
    }
}

/// Whether a token's role names the administrator.
pub fn is_admin(claims_role: &str) -> (r: bool)
    ensures
        r == (role_of_lowercase(lower_of(claims_role@)) == Role::Admin),
{
    let role = Role::from_str(claims_role);
    match role {
        Role::Admin => true,
        Role::User => false,
    }
}

/// Whether a token's role meets the required one; the administrator meets
/// every requirement.
pub fn is_authorized(required_role: Role, claims_role: &str) -> (r: bool)
    ensures
        r == (required_role == role_of_lowercase(lower_of(claims_role@))
            || role_of_lowercase(lower_of(claims_role@)) == Role::Admin),
{
    let role = Role::from_str(claims_role);
    required_role == role || role == Role::Admin
}

/// Resolves a request for the item `target`. `claims` is the payload of a
/// token whose signature and expiry were checked, or `None` when there is no
/// token or it failed those checks. Only the confirmation flag is read from
/// the store; entitlements come from the token.
pub fn session_status_from_claims<T: HashingAlgorithm>(
    claims: Option<&Claims>,
    target: &str,
    db: &InMemoryDb<T>,
) -> (r: SessionStatus)
    requires
        db.wf(),
    ensures
        claims is None ==> r.auth_level == AuthLevel::NoAuth && r.user_id is None && r.username is None,
        claims matches Some(c) ==> {
            &&& r.user_id == Some(c.user_id)
            &&& r.username matches Some(n) && n@ == c.sub@
            &&& r.auth_level == level_for(
                true,
                role_of_lowercase(lower_of(c.role@)) == Role::Admin,
                contains_hash(strings_view(c.accessible_articles@), md5_hex_of(target@)),
                confirmed_in(db.users(), c.user_id),
            )
        },
{
    match claims {
        None => SessionStatus { user_id: None, auth_level: AuthLevel::NoAuth, username: None },
        Some(c) => {
            let admin = is_admin(c.role.as_str());
            let paid = crate::codec::matches(target, &c.accessible_articles);
            let confirmed = db.user_id_is_verified(c.user_id);
            let level = resolve_auth_level(true, admin, paid, confirmed);
            SessionStatus { user_id: Some(c.user_id), auth_level: level, username: Some(c.sub.clone()) }
        },
    }
}

/// The payload of a fresh token for the account with `id`, issued at `now`
/// (seconds): it lists the digests of the articles the account holds now.
pub fn claims_for_user<T: HashingAlgorithm>(db: &InMemoryDb<T>, id: usize, now: usize) -> (r: Option<Claims>)
    requires
        db.wf(),
        now <= usize::MAX - TOKEN_LIFETIME_SECONDS,
    ensures
        r is None <==> !id_taken(db.users(), id),
        r matches Some(c) ==> exists|i: int| 0 <= i < db.users().len() && (#[trigger] db.users()[i]).id == id && {
            let u = db.users()[i];
            &&& c.sub@ == u.username@
            &&& (u.role == Role::Admin ==> c.role@ == "admin"@)
            &&& (u.role == Role::User ==> c.role@ == "user"@)
            &&& c.user_id == id
            &&& c.exp == now + TOKEN_LIFETIME_SECONDS
            &&& strings_view(c.accessible_articles@) == encoded(links_of(u))
        },
{
    match db.get_user_by_id(id) {
        Some(u) => {
            let mut links: Vec<String> = Vec::new();
            let mut i: usize = 0;
            while i < u.accessible_articles.len()
                invariant
                    i <= u.accessible_articles@.len(),
                    links@.len() == i,
                    forall|k: int| 0 <= k < i ==> #[trigger] links@[k]@ == links_of(u)[k],
                decreases u.accessible_articles@.len() - i,
            {
                links.push(owned(u.accessible_articles[i].get_link()));
                i = i + 1;
            }
            assert(strings_view(links@) =~= links_of(u));
            let grants = encode_grants(&links);
            Some(Claims {
                sub: u.username.clone(),
                role: owned(u.role.as_str()),
                user_id: id,
                accessible_articles: grants,
                exp: now + TOKEN_LIFETIME_SECONDS,
            })
        },
        None => None,
    }
}

/// Stronger levels never serve less: an administrator is at least at every
/// level a token could otherwise give.
pub proof fn lemma_admin_dominates(paid: bool, confirmed: bool)
    ensures
        crate::access::level_le(level_for(true, false, paid, confirmed), level_for(true, true, paid, confirmed)),
        crate::access::level_le(level_for(false, false, paid, confirmed), level_for(true, false, paid, confirmed)),
{
}

/// A newly registered account, which is unconfirmed, holds nothing and is
/// no administrator, is served at the unconfirmed level whatever it asks
/// for.
pub proof fn lemma_new_account_unconfirmed(users: Seq<User>, next: nat, grants: Seq<Seq<char>>, target: Seq<char>)
    requires
        users_wf(users, next),
        users.len() > 0,
        !users.last().is_verified,
        grants == encoded(links_of(users.last())),
        users.last().accessible_articles@.len() == 0,
    ensures
        level_for(true, false, contains_hash(grants, md5_hex_of(target)), confirmed_in(users, users.last().id))
            == AuthLevel::UserUnconfirmed,
{
    let n = users.len() - 1;
    assert(links_of(users.last()).len() == 0);
    assert(grants.len() == 0);
    assert forall|i: int| 0 <= i < users.len() && (#[trigger] users[i]).id == users.last().id implies !users[i].is_verified by {
        if i < n {
            assert(users[i].id != users[n].id);
        }
    }
}

/// After the account with `id` is confirmed, a token for it that lists no
/// article for the target is served at the confirmed level.
pub proof fn lemma_confirmation_raises_level(s0: Seq<User>, s1: Seq<User>, id: usize, grants: Seq<Seq<char>>, target: Seq<char>)
    requires
        id_taken(s0, id),
        updated_at_id(s0, s1, id, |a: User, b: User| user_confirmed(a, b)),
        !contains_hash(grants, md5_hex_of(target)),
    ensures
        confirmed_in(s1, id),
        level_for(true, false, contains_hash(grants, md5_hex_of(target)), confirmed_in(s1, id)) == AuthLevel::UserConfirmed,
{
    let i = choose|i: int| 0 <= i < s0.len() && (#[trigger] s0[i]).id == id;
    assert(user_confirmed(s0[i], s1[i]));
    assert(s1[i].id == id && s1[i].is_verified);
}

} // verus!
