use vstd::prelude::*;

verus! {

/// The five ordered privilege levels that govern what a request may see.
#[derive(Clone, Copy, Debug, PartialEq, Eq, Structural)]
pub enum AuthLevel {
    /// Not logged in.
    NoAuth,
    /// Registered and logged in, email not yet confirmed.
    UserUnconfirmed,
    /// Logged in with a confirmed email address.
    UserConfirmed,
    /// Has paid for the article being served.
    PaidAuth,
    /// Administrator: sees everything.
    AdminAuth,
}

/// The ordinal of a level; comparisons between levels go through it alone.
pub open spec fn rank(l: AuthLevel) -> int {
    match l {
        AuthLevel::NoAuth => 1,
        AuthLevel::UserUnconfirmed => 2,
        AuthLevel::UserConfirmed => 3,
        AuthLevel::PaidAuth => 4,
        AuthLevel::AdminAuth => 5,
    }
}

pub open spec fn level_le(a: AuthLevel, b: AuthLevel) -> bool {
    rank(a) <= rank(b)
}

pub open spec fn level_lt(a: AuthLevel, b: AuthLevel) -> bool {
    rank(a) < rank(b)
}

pub open spec fn ordering_of(a: int, b: int) -> core::cmp::Ordering {
    if a < b {
        core::cmp::Ordering::Less
    } else if a == b {
        core::cmp::Ordering::Equal
    } else {
        core::cmp::Ordering::Greater
    }
}

impl AuthLevel {
    pub fn as_u8(&self) -> (r: u8)
        ensures
            r as int == rank(*self),
    {
        match self {
            AuthLevel::NoAuth => 1,
            AuthLevel::UserUnconfirmed => 2,
            AuthLevel::UserConfirmed => 3,
            AuthLevel::PaidAuth => 4,
            AuthLevel::AdminAuth => 5,
        }
    }

    /// Three-way comparison of two levels by their ordinals.
    pub fn compare(&self, other: &AuthLevel) -> (r: core::cmp::Ordering)
        ensures
            r == ordering_of(rank(*self), rank(*other)),
    {
        let a = self.as_u8();
        let b = other.as_u8();
        if a < b {
            core::cmp::Ordering::Less
        } else if a == b {
            core::cmp::Ordering::Equal
        } else {
            core::cmp::Ordering::Greater
        }
    }

    /// True when this level grants at least the `required` privileges.
    pub fn at_least(&self, required: &AuthLevel) -> (r: bool)
        ensures
            r == level_le(*required, *self),
    {
        required.as_u8() <= self.as_u8()
    }
}

impl PartialOrd for AuthLevel {
    fn partial_cmp(&self, other: &AuthLevel) -> (r: Option<core::cmp::Ordering>) {
        Some(self.compare(other))
    }
}

impl vstd::std_specs::cmp::PartialOrdSpecImpl for AuthLevel {
    open spec fn obeys_partial_cmp_spec() -> bool {
        true
    }

    open spec fn partial_cmp_spec(&self, other: &AuthLevel) -> Option<core::cmp::Ordering> {
        Some(ordering_of(rank(*self), rank(*other)))
    }
}

/// Every level is at most the administrator's.
pub proof fn lemma_admin_is_top(l: AuthLevel)
    ensures
        level_le(l, AuthLevel::AdminAuth),
{
}

} // verus!

verus! {

/// The resolved state of one request: who it is, if anyone, and the level at
/// which the requested item is served.
pub struct SessionStatus {
    pub user_id: Option<usize>,
    pub auth_level: AuthLevel,
    pub username: Option<String>,
}

} // verus!

verus! {

/// Lower-case form of a text under Unicode case mapping.
pub uninterp spec fn lower_of(s: Seq<char>) -> Seq<char>;

/// Relies on `str::to_lowercase`: the result depends on the characters
/// alone.
#[verifier::external_body]
fn lowercase(s: &str) -> (r: String)
    ensures
        r@ == lower_of(s@),
{
    s.to_lowercase()
}

/// The role a token or a user record carries.
#[derive(Clone, Copy, Debug, PartialEq, Eq, Structural)]
pub enum Role {
    User,
    Admin,
}

/// The role named by an already lower-cased text: `admin`, else user.
pub open spec fn role_of_lowercase(s: Seq<char>) -> Role {
    if s == "admin"@ {
        Role::Admin
    } else {
        Role::User
    }
}

impl Role {
    /// The role named by a text whose case has already been folded.
    pub fn from_lowercase(role: &str) -> (r: Role)
        ensures
            r == role_of_lowercase(role@),
    {
        if crate::text::str_eq(role, "admin") {
            Role::Admin
        } else {
            Role::User
        }
    }

    /// `admin` in any letter case is the administrator; anything else a user.
    pub fn from_str(role: &str) -> (r: Role)
        ensures
            r == role_of_lowercase(lower_of(role@)),
    {
        let lowered = lowercase(role);
        Role::from_lowercase(lowered.as_str())
    }

    /// The name stored in records and tokens.
    pub fn as_str(&self) -> (r: &'static str)
        ensures
            *self == Role::Admin ==> r@ == "admin"@,
            *self == Role::User ==> r@ == "user"@,
    {
        match self {
            Role::User => "user",
            Role::Admin => "admin",
        }
    }

    /// The display name of the role.
    pub fn to_string(&self) -> (r: String)
        ensures
            *self == Role::Admin ==> r@ == "Admin"@,
            *self == Role::User ==> r@ == "User"@,
    {
        match self {
            Role::User => crate::text::owned("User"),
            Role::Admin => crate::text::owned("Admin"),
        }
    }
}

} // verus!
