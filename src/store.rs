use vstd::prelude::*;
use crate::access::Role;
use crate::article::PaywallArticle;
use crate::password::HashingAlgorithm;
use crate::text::{owned, str_eq};

verus! {

/// Whether a text is an email address by validator's rules.
pub uninterp spec fn valid_email(s: Seq<char>) -> bool;

/// Relies on `validator::validate_email`, whose verdict depends on the text
/// alone.
#[verifier::external_body]
fn email_is_valid(s: &str) -> (r: bool)
    ensures
        r == valid_email(s@),
{
    validator::validate_email(s)
}

/// A registration request.
pub struct RegisterUser {
    pub email: String,
    pub username: String,
    pub password: String,
    pub password_repeat: String,
}

/// A login request.
pub struct LoginUser {
    pub email: String,
    pub password: String,
}

/// What a successful registration reports.
pub struct UserCreated {
    pub user_id: usize,
    pub email: String,
    pub username: String,
}

/// What a successful login reports: the name and a signed session token.
pub struct UserLoggedIn {
    pub username: String,
    pub jwt: String,
}

/// One stored account.
pub struct User {
    pub id: usize,
    pub email: String,
    pub username: String,
    pub password: String,
    pub is_verified: bool,
    pub role: Role,
    pub accessible_articles: Vec<PaywallArticle>,
}

/// Why a registration was refused.
pub enum SignupError {
    PasswordsDontMatchError,
    EmailExistsError(String),
    UsernameExistsError(String),
    RegistrationFieldsError(String),
}

/// Why a login or a token was refused.
#[derive(Clone, Copy, Debug, PartialEq, Eq, Structural)]
pub enum AuthenticationError {
    UserNotFoundError,
    InvalidCredentialsError,
    InvalidJWTTokenError,
    JWTTokenCreationError,
    AuthHeaderRequiredError,
    InvalidAuthHeaderError,
    NotAuthorizedError,
}

/// The links of the articles a user holds.
pub open spec fn links_of(u: User) -> Seq<Seq<char>> {
    u.accessible_articles@.map_values(|a: PaywallArticle| a.link_text())
}

/// Same account, field by field and article by article.
pub open spec fn same_user(a: User, b: User) -> bool {
    &&& a.id == b.id
    &&& a.email@ == b.email@
    &&& a.username@ == b.username@
    &&& a.password@ == b.password@
    &&& a.is_verified == b.is_verified
    &&& a.role == b.role
    &&& a.accessible_articles@ == b.accessible_articles@
}

/// `new` is `old` holding article `a` too; nothing changes when an article
/// with the same link is already held.
pub open spec fn user_granted(old: User, new: User, a: PaywallArticle) -> bool {
    &&& new.id == old.id
    &&& new.email@ == old.email@
    &&& new.username@ == old.username@
    &&& new.password@ == old.password@
    &&& new.is_verified == old.is_verified
    &&& new.role == old.role
    &&& new.accessible_articles@ == if links_of(old).contains(a.link_text()) {
        old.accessible_articles@
    } else {
        old.accessible_articles@.push(a)
    }
}

/// `new` is `old` with its email confirmed.
pub open spec fn user_confirmed(old: User, new: User) -> bool {
    &&& new.id == old.id
    &&& new.email@ == old.email@
    &&& new.username@ == old.username@
    &&& new.password@ == old.password@
    &&& new.is_verified
    &&& new.role == old.role
    &&& new.accessible_articles@ == old.accessible_articles@
}

pub open spec fn id_taken(users: Seq<User>, id: usize) -> bool {
    exists|i: int| 0 <= i < users.len() && (#[trigger] users[i]).id == id
}

pub open spec fn email_taken(users: Seq<User>, email: Seq<char>) -> bool {
    exists|i: int| 0 <= i < users.len() && (#[trigger] users[i]).email@ == email
}

pub open spec fn username_taken(users: Seq<User>, username: Seq<char>) -> bool {
    exists|i: int| 0 <= i < users.len() && (#[trigger] users[i]).username@ == username
}

/// Ids, emails and usernames each name at most one account; every id lies
/// below the next one to be given out; no user holds two articles with one
/// link.
pub open spec fn users_wf(users: Seq<User>, next_id: nat) -> bool {
    &&& forall|i: int, j: int| 0 <= i < j < users.len() ==> (#[trigger] users[i]).id != (#[trigger] users[j]).id
    &&& forall|i: int, j: int| 0 <= i < j < users.len() ==> (#[trigger] users[i]).email@ != (#[trigger] users[j]).email@
    &&& forall|i: int, j: int| 0 <= i < j < users.len() ==> (#[trigger] users[i]).username@ != (#[trigger] users[j]).username@
    &&& forall|i: int| 0 <= i < users.len() ==> (#[trigger] users[i]).id < next_id
    &&& forall|i: int| 0 <= i < users.len() ==> links_of(#[trigger] users[i]).no_duplicates()
}

/// The other records are untouched and the one with `id` changed as `step` says.
pub open spec fn updated_at_id(old: Seq<User>, new: Seq<User>, id: usize, step: spec_fn(User, User) -> bool) -> bool {
    &&& new.len() == old.len()
    &&& forall|i: int| 0 <= i < old.len() ==> if (#[trigger] old[i]).id == id {
        step(old[i], new[i])
    } else {
        same_user(old[i], new[i])
    }
}

impl User {
    /// A deep copy.
    pub fn duplicate(&self) -> (r: User)
        ensures
            same_user(*self, r),
    {
        let mut articles: Vec<PaywallArticle> = Vec::new();
        let mut i: usize = 0;
        while i < self.accessible_articles.len()
            invariant
                i <= self.accessible_articles@.len(),
                articles@ == self.accessible_articles@.subrange(0, i as int),
            decreases self.accessible_articles@.len() - i,
        {
            articles.push(self.accessible_articles[i].duplicate());
            assert(articles@ =~= self.accessible_articles@.subrange(0, i + 1));
            i = i + 1;
        }
        assert(self.accessible_articles@.subrange(0, i as int) =~= self.accessible_articles@);
        User {
            id: self.id,
            email: self.email.clone(),
            username: self.username.clone(),
            password: self.password.clone(),
            is_verified: self.is_verified,
            role: self.role,
            accessible_articles: articles,
        }
    }

    /// Whether the user holds an article with this link.
    pub fn has_link(&self, link: &str) -> (r: bool)
        ensures
            r == links_of(*self).contains(link@),
    {
        let mut i: usize = 0;
        while i < self.accessible_articles.len()
            invariant
                i <= self.accessible_articles@.len(),
                forall|k: int| 0 <= k < i ==> links_of(*self)[k] != link@,
            decreases self.accessible_articles@.len() - i,
        {
            if self.accessible_articles[i].link_matches(link) {
                assert(links_of(*self)[i as int] == link@);
                return true;
            }
            i = i + 1;
        }
        false
    }
}

/// Accounts held in memory: one list of records, so that no lookup by id,
/// email or username can disagree with another. Callers that share it
/// across requests guard it with one lock per operation.
pub struct InMemoryDb<T: HashingAlgorithm> {
    users: Vec<User>,
    next_id: usize,
    jwt_secret: String,
    hashing_algorithm: T,
}

impl<T: HashingAlgorithm> InMemoryDb<T> {
    pub closed spec fn users(&self) -> Seq<User> {
        self.users@
    }

    pub closed spec fn next_id(&self) -> nat {
        self.next_id as nat
    }

    pub closed spec fn secret(&self) -> Seq<char> {
        self.jwt_secret@
    }

    pub open spec fn wf(&self) -> bool {
        users_wf(self.users(), self.next_id())
    }

    pub fn new(jwt_secret: String, hashing_algorithm: T) -> (r: InMemoryDb<T>)
        ensures
            r.wf(),
            r.users() == Seq::<User>::empty(),
            r.next_id() == 0,
            r.secret() == jwt_secret@,
    {
        InMemoryDb { users: Vec::new(), next_id: 0, jwt_secret, hashing_algorithm }
    }

    /// Whether another account can still be given an id.
    pub fn can_register(&self) -> (r: bool)
        ensures
            r == (self.next_id() < usize::MAX),
    {
        self.next_id < usize::MAX
    }

    /// The key tokens for this store's accounts are signed with.
    pub fn get_jwt_secret(&self) -> (r: &str)
        ensures
            r@ == self.secret(),
    {
        self.jwt_secret.as_str()
    }

    fn find_by_id(&self, id: usize) -> (r: Option<usize>)
        ensures
            r is None <==> !id_taken(self.users(), id),
            r matches Some(i) ==> i < self.users().len() && self.users()[i as int].id == id,
    {
        let mut i: usize = 0;
        while i < self.users.len()
            invariant
                i <= self.users@.len(),
                forall|k: int| 0 <= k < i ==> self.users@[k].id != id,
            decreases self.users@.len() - i,
        {
            if self.users[i].id == id {
                return Some(i);
            }
            i = i + 1;
        }
        None
    }

    fn find_by_email(&self, email: &str) -> (r: Option<usize>)
        ensures
            r is None <==> !email_taken(self.users(), email@),
            r matches Some(i) ==> i < self.users().len() && self.users()[i as int].email@ == email@,
    {
        let mut i: usize = 0;
        while i < self.users.len()
            invariant
                i <= self.users@.len(),
                forall|k: int| 0 <= k < i ==> self.users@[k].email@ != email@,
            decreases self.users@.len() - i,
        {
            if str_eq(self.users[i].email.as_str(), email) {
                return Some(i);
            }
            i = i + 1;
        }
        None
    }

    fn find_by_username(&self, username: &str) -> (r: Option<usize>)
        ensures
            r is None <==> !username_taken(self.users(), username@),
    {
        let mut i: usize = 0;
        while i < self.users.len()
            invariant
                i <= self.users@.len(),
                forall|k: int| 0 <= k < i ==> self.users@[k].username@ != username@,
            decreases self.users@.len() - i,
        {
            if str_eq(self.users[i].username.as_str(), username) {
                return Some(i);
            }
            i = i + 1;
        }
        None
    }

    /// Registers an account with `role`, given the verdict of the email
    /// format check on `user.email`: the remaining field checks, then the
    /// uniqueness checks, then the new record with the next id.
    pub fn register_with_email_verdict(&mut self, user: RegisterUser, role: Role, email_ok: bool) -> (r: Result<UserCreated, SignupError>)
        requires
            old(self).wf(),
            old(self).next_id() < usize::MAX,
        ensures
            final(self).wf(),
            signup_outcome::<T>(email_ok, old(self).users(), old(self).next_id(), user, role, r, final(self).users(), final(self).next_id()),
    {
        if !email_ok {
            return Err(SignupError::RegistrationFieldsError(owned("Invalid email format.")));
        }
        if user.username.unicode_len() == 0 {
            return Err(SignupError::RegistrationFieldsError(owned("Username cannot be empty.")));
        }
        if user.password != user.password_repeat {
            return Err(SignupError::RegistrationFieldsError(owned("Passwords must match.")));
        }
        if self.find_by_email(user.email.as_str()).is_some() {
            return Err(SignupError::EmailExistsError(user.email));
        }
        if self.find_by_username(user.username.as_str()).is_some() {
            return Err(SignupError::UsernameExistsError(user.username));
        }
        let new_id = self.next_id;
        let password = T::get_hash(user.password.as_str());
        let created = UserCreated { user_id: new_id, email: user.email.clone(), username: user.username.clone() };
        let record = User {
            id: new_id,
            email: user.email,
            username: user.username,
            password,
            is_verified: false,
            role,
            accessible_articles: Vec::new(),
        };
        assert(links_of(record) =~= Seq::<Seq<char>>::empty());
        let ghost before = self.users@;
        self.users.push(record);
        self.next_id = new_id + 1;
        assert(self.users@.drop_last() == before);
        assert(self.users@.last() == record);
        Ok(created)
    }

    /// Registers a user. Refused, in this order of checks, for invalid fields
    /// (email format, empty username, differing passwords), for an email
    /// already registered and for a username already taken.
    pub fn create_user(&mut self, user: RegisterUser) -> (r: Result<UserCreated, SignupError>)
        requires
            old(self).wf(),
            old(self).next_id() < usize::MAX,
        ensures
            final(self).wf(),
            signup_outcome::<T>(valid_email(user.email@), old(self).users(), old(self).next_id(), user, Role::User, r, final(self).users(), final(self).next_id()),
    {
        let email_ok = email_is_valid(user.email.as_str());
        self.register_with_email_verdict(user, Role::User, email_ok)
    }

    /// Registers an administrator, under the same checks as `create_user`.
    pub fn create_admin(&mut self, user: RegisterUser) -> (r: Result<UserCreated, SignupError>)
        requires
            old(self).wf(),
            old(self).next_id() < usize::MAX,
        ensures
            final(self).wf(),
            signup_outcome::<T>(valid_email(user.email@), old(self).users(), old(self).next_id(), user, Role::Admin, r, final(self).users(), final(self).next_id()),
    {
        let email_ok = email_is_valid(user.email.as_str());
        self.register_with_email_verdict(user, Role::Admin, email_ok)
    }

    pub fn check_email_exists(&self, email: &str) -> (r: bool)
        ensures
            r == email_taken(self.users(), email@),
    {
        self.find_by_email(email).is_some()
    }

    pub fn get_user_by_email(&self, email: &str) -> (r: Option<User>)
        ensures
            r is None <==> !email_taken(self.users(), email@),
            r matches Some(u) ==> exists|i: int| 0 <= i < self.users().len() && self.users()[i].email@ == email@
                && same_user(#[trigger] self.users()[i], u),
    {
        match self.find_by_email(email) {
            Some(i) => Some(self.users[i].duplicate()),
            None => None,
        }
    }

    pub fn get_user_by_id(&self, id: usize) -> (r: Option<User>)
        ensures
            r is None <==> !id_taken(self.users(), id),
            r matches Some(u) ==> exists|i: int| 0 <= i < self.users().len() && self.users()[i].id == id
                && same_user(#[trigger] self.users()[i], u),
    {
        match self.find_by_id(id) {
            Some(i) => Some(self.users[i].duplicate()),
            None => None,
        }
    }

    /// The id of the account with this email, when the password is accepted
    /// for it.
    pub fn login(&self, login_user: &LoginUser) -> (r: Result<usize, AuthenticationError>)
        requires
            self.wf(),
        ensures
            !email_taken(self.users(), login_user.email@) <==> r == Err::<usize, AuthenticationError>(AuthenticationError::UserNotFoundError),
            forall|i: int| 0 <= i < self.users().len() && (#[trigger] self.users()[i]).email@ == login_user.email@ ==> {
                if T::verifies(login_user.password@, self.users()[i].password@) {
                    r == Ok::<usize, AuthenticationError>(self.users()[i].id)
                } else {
                    r == Err::<usize, AuthenticationError>(AuthenticationError::InvalidCredentialsError)
                }
            },
    {
        match self.find_by_email(login_user.email.as_str()) {
            Some(i) => {
                proof {
                    assert forall|j: int| 0 <= j < self.users().len() && (#[trigger] self.users()[j]).email@ == login_user.email@ implies j == i by {
                        if j != i as int {
                            if j < i {
                                assert(self.users()[j].email@ != self.users()[i as int].email@);
                            } else {
                                assert(self.users()[i as int].email@ != self.users()[j].email@);
                            }
                        }
                    }
                }
                if T::verify_hash(login_user.password.as_str(), self.users[i].password.as_str()) {
                    Ok(self.users[i].id)
                } else {
                    Err(AuthenticationError::InvalidCredentialsError)
                }
            },
            None => Err(AuthenticationError::UserNotFoundError),
        }
    }

    /// Grants an article to the account with `id`; granting one already held
    /// (by link) changes nothing.
    pub fn add_accessible_article_to_id(&mut self, id: usize, article: PaywallArticle) -> (r: Result<(), ()>)
        requires
            old(self).wf(),
        ensures
            final(self).wf(),
            r is Ok <==> id_taken(old(self).users(), id),
            final(self).next_id() == old(self).next_id(),
            updated_at_id(old(self).users(), final(self).users(), id, |a: User, b: User| user_granted(a, b, article)),
    {
        let ghost a = article;
        match self.find_by_id(id) {
            Some(i) => {
                let mut user = self.users[i].duplicate();
                if !user.has_link(article.get_link()) {
                    proof {
                        assert(links_of(user).no_duplicates());
                    }
                    user.accessible_articles.push(article);
                    assert(links_of(user) =~= links_of(self.users@[i as int]).push(a.link_text()));
                }
                self.users.set(i, user);
                proof {
                    lemma_ids_unique_at(old(self).users(), i as int, id);
                }
                Ok(())
            },
            None => {
                Err(())
            },
        }
    }

    /// Marks the account with `id` as confirmed.
    pub fn confirm_email_for_user_id(&mut self, id: usize) -> (r: Result<(), ()>)
        requires
            old(self).wf(),
        ensures
            final(self).wf(),
            r is Ok <==> id_taken(old(self).users(), id),
            final(self).next_id() == old(self).next_id(),
            updated_at_id(old(self).users(), final(self).users(), id, |a: User, b: User| user_confirmed(a, b)),
    {
        match self.find_by_id(id) {
            Some(i) => {
                let mut user = self.users[i].duplicate();
                user.is_verified = true;
                assert(links_of(user) == links_of(self.users@[i as int]));
                self.users.set(i, user);
                proof {
                    lemma_ids_unique_at(old(self).users(), i as int, id);
                }
                Ok(())
            },
            None => Err(()),
        }
    }

    /// Whether the account with `id` holds an article with this link.
    pub fn user_id_has_access_by_link(&self, id: usize, link: &str) -> (r: bool)
        requires
            self.wf(),
        ensures
            r == exists|i: int| 0 <= i < self.users().len() && self.users()[i].id == id
                && links_of(#[trigger] self.users()[i]).contains(link@),
    {
        match self.find_by_id(id) {
            Some(i) => {
                proof {
                    lemma_ids_unique_at(self.users(), i as int, id);
                }
                self.users[i].has_link(link)
            },
            None => false,
        }
    }

    /// Whether the account with `id` has confirmed its email; false when
    /// there is no such account.
    pub fn user_id_is_verified(&self, id: usize) -> (r: bool)
        requires
            self.wf(),
        ensures
            r == exists|i: int| 0 <= i < self.users().len() && (#[trigger] self.users()[i]).id == id && self.users()[i].is_verified,
    {
        match self.find_by_id(id) {
            Some(i) => {
                proof {
                    lemma_ids_unique_at(self.users(), i as int, id);
                }
                self.users[i].is_verified
            },
            None => false,
        }
    }

    /// Removes the account with `id`, with everything it holds.
    pub fn delete_user_by_id(&mut self, id: usize) -> (r: Result<(), ()>)
        requires
            old(self).wf(),
        ensures
            final(self).wf(),
            r is Ok <==> id_taken(old(self).users(), id),
            r is Err ==> final(self).users() == old(self).users(),
            r is Ok ==> exists|i: int| 0 <= i < old(self).users().len() && (#[trigger] old(self).users()[i]).id == id
                && final(self).users() == old(self).users().remove(i),
            final(self).next_id() == old(self).next_id(),
    {
        match self.find_by_id(id) {
            Some(i) => {
                let ghost before = self.users@;
                let _removed = self.users.remove(i);
                assert(self.users@ == before.remove(i as int));
                proof {
                    lemma_remove_keeps_wf(before, i as int, self.next_id());
                }
                Ok(())
            },
            None => Err(()),
        }
    }

    /// The articles held by the account with `id`; `None` when there is no
    /// such account.
    pub fn get_paywall_articles_for_user_id(&self, id: usize) -> (r: Option<Vec<PaywallArticle>>)
        requires
            self.wf(),
        ensures
            r is None <==> !id_taken(self.users(), id),
            r matches Some(v) ==> exists|i: int| 0 <= i < self.users().len() && (#[trigger] self.users()[i]).id == id
                && v@ == self.users()[i].accessible_articles@,
    {
        match self.get_user_by_id(id) {
            Some(u) => Some(u.accessible_articles),
            None => None,
        }
    }
}

/// The effect of a registration on the records, and its result.
pub open spec fn signup_outcome<T: HashingAlgorithm>(
    email_ok: bool,
    old: Seq<User>,
    old_next: nat,
    req: RegisterUser,
    role: Role,
    r: Result<UserCreated, SignupError>,
    new: Seq<User>,
    new_next: nat,
) -> bool {
    if !email_ok || req.username@.len() == 0 || req.password@ != req.password_repeat@ {
        r matches Err(SignupError::RegistrationFieldsError(_)) && new == old && new_next == old_next
    } else if email_taken(old, req.email@) {
        (r matches Err(SignupError::EmailExistsError(e)) && e@ == req.email@) && new == old && new_next == old_next
    } else if username_taken(old, req.username@) {
        (r matches Err(SignupError::UsernameExistsError(n)) && n@ == req.username@) && new == old && new_next == old_next
    } else {
        &&& r matches Ok(c) && c.user_id == old_next && c.email@ == req.email@ && c.username@ == req.username@
        &&& new_next == old_next + 1
        &&& new.len() == old.len() + 1
        &&& new.drop_last() == old
        &&& new.last().id == old_next
        &&& new.last().email@ == req.email@
        &&& new.last().username@ == req.username@
        &&& T::verifies(req.password@, new.last().password@)
        &&& !new.last().is_verified
        &&& new.last().role == role
        &&& new.last().accessible_articles@.len() == 0
    }
}

/// Ids being unique, `i` is the only record with its id.
pub proof fn lemma_ids_unique_at(users: Seq<User>, i: int, id: usize)
    requires
        forall|a: int, b: int| 0 <= a < b < users.len() ==> (#[trigger] users[a]).id != (#[trigger] users[b]).id,
        0 <= i < users.len(),
        users[i].id == id,
    ensures
        forall|j: int| 0 <= j < users.len() && (#[trigger] users[j]).id == id ==> j == i,
{
    assert forall|j: int| 0 <= j < users.len() && (#[trigger] users[j]).id == id implies j == i by {
        if j < i {
            assert(users[j].id != users[i].id);
        } else if j > i {
            assert(users[i].id != users[j].id);
        }
    }
}

pub proof fn lemma_remove_keeps_wf(users: Seq<User>, i: int, next: nat)
    requires
        users_wf(users, next),
        0 <= i < users.len(),
    ensures
        users_wf(users.remove(i), next),
        forall|j: int| 0 <= j < users.remove(i).len() ==> (#[trigger] users.remove(i)[j]).id != users[i].id,
{
    let s = users.remove(i);
    assert forall|a: int| 0 <= a < s.len() implies #[trigger] s[a] == users[if a < i { a } else { a + 1 }] by {}
    assert forall|a: int, b: int| 0 <= a < b < s.len() implies (#[trigger] s[a]).id != (#[trigger] s[b]).id by {
        let a2 = if a < i { a } else { a + 1 };
        let b2 = if b < i { b } else { b + 1 };
        assert(s[a] == users[a2] && s[b] == users[b2]);
    }
    assert forall|a: int, b: int| 0 <= a < b < s.len() implies (#[trigger] s[a]).email@ != (#[trigger] s[b]).email@ by {
        let a2 = if a < i { a } else { a + 1 };
        let b2 = if b < i { b } else { b + 1 };
        assert(s[a] == users[a2] && s[b] == users[b2]);
    }
    assert forall|a: int, b: int| 0 <= a < b < s.len() implies (#[trigger] s[a]).username@ != (#[trigger] s[b]).username@ by {
        let a2 = if a < i { a } else { a + 1 };
        let b2 = if b < i { b } else { b + 1 };
        assert(s[a] == users[a2] && s[b] == users[b2]);
    }
    assert forall|j: int| 0 <= j < s.len() implies (#[trigger] s[j]).id != users[i].id by {
        let j2 = if j < i { j } else { j + 1 };
        assert(s[j] == users[j2]);
    }
}

} // verus!
