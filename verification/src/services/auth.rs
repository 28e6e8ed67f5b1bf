//! Accounts: registering, signing in, changing a password.
//!
//! Passwords are never kept; what is kept is their bcrypt hash. A user name
//! is taken at most once.

use crate::clock::utc_now_millis;
use crate::errors::AppError;
use crate::errors::ErrorView;
use crate::models::user::Claims;
use crate::models::user::User;
use crate::models::user::TOKEN_LIFETIME_SECONDS;
use crate::services::storage::random_id;
use crate::text::eq_text;
use vstd::prelude::*;
use vstd::string::*;

verus! {

/// Whether `bcrypt::verify` accepts the password for the hash. A hash that
/// cannot be read accepts nothing.
pub uninterp spec fn bcrypt_verifies(password: Seq<char>, hash: Seq<char>) -> bool;

/// Checks a password against a hash with `bcrypt::verify`; a hash that
/// cannot be read counts as a mismatch. The answer depends on the two texts
/// alone.
#[verifier::external_body]
pub(crate) fn verify_password(password: &str, hash: &str) -> (matches: bool)
    ensures
        matches == bcrypt_verifies(password@, hash@),
{
    bcrypt::verify(password, hash).unwrap_or(false)
}

/// Hashes a password with `bcrypt::hash` at the crate's default cost. The
/// salt is random, so the hash is not determined by the password; what is
/// known of it is that `bcrypt::verify` accepts the password for it. There
/// is no hash where the system's source of randomness fails.
#[verifier::external_body]
pub(crate) fn hash_password(password: &str) -> (hash: Option<String>)
    ensures
        hash is Some ==> bcrypt_verifies(password@, hash->Some_0@),
{
    bcrypt::hash(password, bcrypt::DEFAULT_COST).ok()
}

/// Tells whether a password is accepted for an account.
pub fn password_accepted(user: &User, password: &str) -> (accepted: bool)
    ensures
        accepted == bcrypt_verifies(password@, user.password_hash@),
{
    verify_password(password, user.password_hash.as_str())
}

/// Makes the hash to keep for a new password; the password is accepted for
/// it. There is none where the system's source of randomness fails.
pub fn new_password_hash(password: &str) -> (hash: Option<String>)
    ensures
        hash is Some ==> bcrypt_verifies(password@, hash->Some_0@),
{
    hash_password(password)
}

/// A [`User`] as plain values.
pub struct UserView {
    pub id: u128,
    pub username: Seq<char>,
    pub password_hash: Seq<char>,
    pub created_at: i64,
}

/// The plain values of a user.
pub open spec fn user_view(user: User) -> UserView {
    UserView {
        id: user.id,
        username: user.username@,
        password_hash: user.password_hash@,
        created_at: user.created_at,
    }
}

/// The sentence sent when a user name is taken.
pub open spec fn username_taken_message() -> Seq<char> {
    "Username already exists"@
}

/// The sentence kept for the log when a password cannot be hashed.
pub open spec fn hashing_failed_message() -> Seq<char> {
    "Password could not be hashed"@
}

/// The accounts.
pub struct AuthService {
    users: Vec<User>,
}

impl View for AuthService {
    type V = Seq<UserView>;

    /// The accounts in the order they were registered.
    closed spec fn view(&self) -> Seq<UserView> {
        self.users@.map_values(|user: User| user_view(user))
    }
}

/// The place of the account with the given name, if there is one.
pub open spec fn has_username(users: Seq<UserView>, username: Seq<char>) -> bool {
    exists|i: int| 0 <= i < users.len() && (#[trigger] users[i]).username == username
}

/// The sign-in is good: an account has the name and its hash accepts the
/// password.
pub open spec fn good_sign_in(users: Seq<UserView>, username: Seq<char>, password: Seq<char>) -> bool {
    exists|i: int|
        0 <= i < users.len() && (#[trigger] users[i]).username == username && bcrypt_verifies(
            password,
            users[i].password_hash,
        )
}

/// A change of password is due: the first account with the identifier
/// exists and its hash accepts the password given as the current one.
pub open spec fn change_due(users: Seq<UserView>, user_id: u128, current: Seq<char>) -> bool {
    exists|i: int|
        0 <= i < users.len() && (#[trigger] users[i]).id == user_id && bcrypt_verifies(
            current,
            users[i].password_hash,
        ) && forall|j: int| 0 <= j < i ==> (#[trigger] users[j]).id != user_id
}

/// The accounts after the account at place `at` has been given a new hash.
pub open spec fn with_hash(users: Seq<UserView>, at: int, hash: Seq<char>) -> Seq<UserView> {
    users.update(at, UserView { password_hash: hash, ..users[at] })
}

impl AuthService {
    /// No user name is taken twice.
    pub open spec fn wf(&self) -> bool {
        forall|i: int, j: int|
            0 <= i < j < self@.len() ==> (#[trigger] self@[i]).username
                != (#[trigger] self@[j]).username
    }

    /// A service without accounts.
    pub fn new() -> (service: Self)
        ensures
            service.wf(),
            service@ == Seq::<UserView>::empty(),
    {
        let service = AuthService { users: Vec::new() };
        assert(service@ =~= Seq::<UserView>::empty());
        service
    }

    fn find(&self, username: &str) -> (at: Option<usize>)
        ensures
            match at {
                Some(i) => i < self@.len() && self@[i as int].username == username@,
                None => !has_username(self@, username@),
            },
    {
        let mut i: usize = 0;
        while i < self.users.len()
            invariant
                i <= self.users@.len(),
                self@.len() == self.users@.len(),
                forall|j: int| 0 <= j < i ==> (#[trigger] self@[j]).username != username@,
            decreases self.users@.len() - i,
        {
            if eq_text(self.users[i].username.as_str(), username) {
                return Some(i);
            }
            i += 1;
        }
        None
    }

    /// Registers an account under the given identifier, made at `now`, with
    /// the given hash of its password. A name that is taken is refused and
    /// the accounts stay as they were.
    pub fn register_with(&mut self, username: &str, password_hash: String, id: u128, now: i64) -> (r:
        Result<User, AppError>)
        requires
            old(self).wf(),
        ensures
            final(self).wf(),
            if has_username(old(self)@, username@) {
                r is Err && r->Err_0@ == ErrorView::Conflict(username_taken_message())
                    && final(self)@ == old(self)@
            } else {
                r is Ok && user_view(r->Ok_0) == (UserView {
                    id,
                    username: username@,
                    password_hash: password_hash@,
                    created_at: now,
                }) && final(self)@ == old(self)@.push(user_view(r->Ok_0))
            },
    {
        if self.find(username).is_some() {
            return Err(AppError::Conflict(String::from_str("Username already exists")));
        }
        let ghost before = self@;
        let copy = User {
            id,
            username: username.to_owned(),
            password_hash: password_hash.clone(),
            created_at: now,
        };
        self.users.push(User { id, username: username.to_owned(), password_hash, created_at: now });
        assert(self@ =~= before.push(user_view(copy)));
        Ok(copy)
    }

    /// Registers an account for a new user. The identifier is random, the
    /// instant is the clock's, and the hash is salted at random; the password
    /// given is accepted for the account from then on. A name that is taken is
    /// a conflict; a password that cannot be hashed is an internal error.
    pub fn register(&mut self, username: &str, password: &str) -> (r: Result<User, AppError>)
        requires
            old(self).wf(),
        ensures
            final(self).wf(),
            match r {
                Ok(user) => !has_username(old(self)@, username@) && final(self)@ == old(self)@.push(user_view(user)) && user.username@ == username@ && bcrypt_verifies(
                    password@,
                    user.password_hash@,
                ) && good_sign_in(final(self)@, username@, password@),
                Err(error) => final(self)@ == old(self)@ && (has_username(old(self)@, username@)
                    ==> error@ == ErrorView::Conflict(username_taken_message())) && (!has_username(
                    old(self)@,
                    username@,
                ) ==> error@ == ErrorView::InternalError(hashing_failed_message())),
            },
    {
        if self.find(username).is_some() {
            return Err(AppError::Conflict(String::from_str("Username already exists")));
        }
        let password_hash = match hash_password(password) {
            Some(hash) => hash,
            None => {
                return Err(
                    AppError::InternalError(String::from_str("Password could not be hashed")),
                );
            },
        };
        let id = random_id();
        let now = utc_now_millis();
        let r = self.register_with(username, password_hash, id, now);
        proof {
            if r is Ok {
                let last = self@.len() - 1;
                assert(self@[last] == user_view(r->Ok_0));
            }
        }
        r
    }

    /// Signs a user in: hands back the account when the name is known and
    /// the password is accepted for it, and nothing otherwise.
    pub fn authenticate(&self, username: &str, password: &str) -> (found: Option<User>)
        requires
            self.wf(),
        ensures
            found is Some == good_sign_in(self@, username@, password@),
            found is Some ==> exists|i: int|
                0 <= i < self@.len() && #[trigger] self@[i] == user_view(found->Some_0)
                    && self@[i].username == username@,
    {
        match self.find(username) {
            Some(i) => {
                let user = &self.users[i];
                let matches = verify_password(password, user.password_hash.as_str());
                proof {
                    if good_sign_in(self@, username@, password@) {
                        let j = choose|j: int|
                            0 <= j < self@.len() && (#[trigger] self@[j]).username == username@
                                && bcrypt_verifies(password@, self@[j].password_hash);
                        if j < i {
                            assert(self@[j].username != self@[i as int].username);
                        } else if j > i {
                            assert(self@[i as int].username != self@[j].username);
                        }
                    }
                }
                if matches {
                    let copy = User {
                        id: user.id,
                        username: user.username.clone(),
                        password_hash: user.password_hash.clone(),
                        created_at: user.created_at,
                    };
                    assert(self@[i as int] == user_view(copy));
                    Some(copy)
                } else {
                    None
                }
            },
            None => None,
        }
    }

    /// The claims of the session token for a user who signed in at `now`
    /// (in seconds): issued to the user's identifier as text, good for a day.
    pub fn claims_for(user: &User, now: usize) -> (claims: Option<Claims>)
        ensures
            match claims {
                Some(issued) => issued.sub@ == crate::ids::uuid_text(user.id) && issued.iat == now
                    && issued.exp == now + TOKEN_LIFETIME_SECONDS,
                None => now + TOKEN_LIFETIME_SECONDS > usize::MAX,
            },
    {
        Claims::issue(crate::ids::format_uuid(user.id), now)
    }

    /// Finds the account whose password is to be changed: the first with
    /// the identifier, where its hash accepts `current`.
    fn position_for_change(&self, user_id: u128, current: &str) -> (at: Option<usize>)
        ensures
            match at {
                Some(i) => i < self@.len() && self@[i as int].id == user_id && bcrypt_verifies(
                    current@,
                    self@[i as int].password_hash,
                ) && forall|j: int| 0 <= j < i ==> (#[trigger] self@[j]).id != user_id,
                None => !change_due(self@, user_id, current@),
            },
            at is Some <==> change_due(self@, user_id, current@),
    {
        let mut i: usize = 0;
        while i < self.users.len()
            invariant
                i <= self.users@.len(),
                self@.len() == self.users@.len(),
                forall|j: int| 0 <= j < i ==> (#[trigger] self@[j]).id != user_id,
            decreases self.users@.len() - i,
        {
            if self.users[i].id == user_id {
                assert(self@[i as int].id == user_id);
                if verify_password(current, self.users[i].password_hash.as_str()) {
                    return Some(i);
                }
                proof {
                    if change_due(self@, user_id, current@) {
                        let k = choose|k: int|
                            0 <= k < self@.len() && (#[trigger] self@[k]).id == user_id
                                && bcrypt_verifies(current@, self@[k].password_hash) && forall|
                                j: int,
                            | 0 <= j < k ==> (#[trigger] self@[j]).id != user_id;
                        if k > i {
                            assert(self@[i as int].id != user_id);
                        }
                    }
                }
                return None;
            }
            i += 1;
        }
        None
    }

    /// Gives the account at place `at` a new hash and leaves the rest of it,
    /// and every other account, as it was.
    fn replace_hash_at(&mut self, at: usize, new_hash: String)
        requires
            old(self).wf(),
            at < old(self)@.len(),
        ensures
            final(self).wf(),
            final(self)@ == with_hash(old(self)@, at as int, new_hash@),
    {
        let ghost before = self@;
        let user = &self.users[at];
        let replaced = User {
            id: user.id,
            username: user.username.clone(),
            password_hash: new_hash,
            created_at: user.created_at,
        };
        let ghost view = user_view(replaced);
        self.users.set(at, replaced);
        proof {
            assert(self@ =~= before.update(at as int, view));
            assert forall|a: int, b: int| 0 <= a < b < self@.len() implies (#[trigger] self@[a]).username
                != (#[trigger] self@[b]).username by {
                assert(before[a].username != before[b].username);
            }
        }
    }

    /// Replaces the hash of the account with identifier `user_id` after the
    /// current password has been checked. Nothing changes where the account
    /// is unknown or the current password is not accepted.
    pub fn change_password_with(&mut self, user_id: u128, current: &str, new_hash: String) -> (changed:
        bool)
        requires
            old(self).wf(),
        ensures
            final(self).wf(),
            final(self)@.len() == old(self)@.len(),
            changed == change_due(old(self)@, user_id, current@),
            !changed ==> final(self)@ == old(self)@,
            changed ==> exists|i: int|
                0 <= i < old(self)@.len() && (#[trigger] old(self)@[i]).id == user_id
                    && bcrypt_verifies(current@, old(self)@[i].password_hash) && (forall|j: int|
                    0 <= j < i ==> (#[trigger] old(self)@[j]).id != user_id) && final(self)@
                    == with_hash(old(self)@, i, new_hash@),
    {
        match self.position_for_change(user_id, current) {
            Some(at) => {
                self.replace_hash_at(at, new_hash);
                assert(old(self)@[at as int].id == user_id);
                true
            },
            None => false,
        }
    }

    /// Changes the password of an account after the current one has been
    /// checked. Where the account is unknown or the current password is not
    /// accepted, nothing changes and the answer is `false`, without any
    /// hashing. Otherwise the first account with the identifier gets a fresh
    /// hash for which the new password is accepted, and the answer is `true`;
    /// only where the new password cannot be hashed does the change fail, and
    /// then too nothing changes.
    pub fn change_password(&mut self, user_id: u128, current: &str, new_password: &str) -> (r:
        Result<bool, AppError>)
        requires
            old(self).wf(),
        ensures
            final(self).wf(),
            final(self)@.len() == old(self)@.len(),
            !change_due(old(self)@, user_id, current@) ==> r is Ok && !r->Ok_0 && final(self)@
                == old(self)@,
            change_due(old(self)@, user_id, current@) ==> match r {
                Ok(changed) => changed && exists|i: int, hash: Seq<char>|
                    0 <= i < old(self)@.len() && (#[trigger] old(self)@[i]).id == user_id
                        && bcrypt_verifies(current@, old(self)@[i].password_hash) && (forall|
                        j: int,
                    | 0 <= j < i ==> (#[trigger] old(self)@[j]).id != user_id) && bcrypt_verifies(
                        new_password@,
                        hash,
                    ) && final(self)@ == #[trigger] with_hash(old(self)@, i, hash),
                Err(error) => final(self)@ == old(self)@ && error@ == ErrorView::InternalError(
                    hashing_failed_message(),
                ),
            },
    {
        let at = match self.position_for_change(user_id, current) {
            Some(at) => at,
            None => {
                return Ok(false);
            },
        };
        let new_hash = match hash_password(new_password) {
            Some(hash) => hash,
            None => {
                return Err(
                    AppError::InternalError(String::from_str("Password could not be hashed")),
                );
            },
        };
        let ghost text = new_hash@;
        self.replace_hash_at(at, new_hash);
        proof {
            assert(old(self)@[at as int].id == user_id);
            assert(self@ == with_hash(old(self)@, at as int, text));
        }
        Ok(true)
    }
}

/// The text begins with `Bearer `.
pub open spec fn has_bearer_prefix(text: Seq<char>) -> bool {
    7 <= text.len() && text.subrange(0, 7) == "Bearer "@
}

/// The text without any number of `Bearer ` in front of it.
pub open spec fn without_bearer_prefix(text: Seq<char>) -> Seq<char>
    decreases text.len(),
{
    if has_bearer_prefix(text) {
        without_bearer_prefix(text.subrange(7, text.len() as int))
    } else {
        text
    }
}

/// Takes the token out of an `Authorization` header: what follows `Bearer `,
/// with any further `Bearer ` in front of it taken off as well. A header of
/// another scheme carries no token.
pub fn bearer_token(header: &str) -> (token: Option<String>)
    ensures
        match token {
            Some(text) => has_bearer_prefix(header@) && text@ == without_bearer_prefix(header@),
            None => !has_bearer_prefix(header@),
        },
{
    proof {
        reveal_strlit("Bearer ");
    }
    if !crate::text::starts_with(header, "Bearer ") {
        return None;
    }
    let n: usize = header.unicode_len();
    let mut cut: usize = 7;
    assert(header@.subrange(7, n as int) == header@.subrange(cut as int, n as int));
    while n - cut >= 7 && crate::text::starts_with(header.substring_char(cut, n), "Bearer ")
        invariant
            n == header@.len(),
            7 <= cut <= n,
            "Bearer "@.len() == 7,
            without_bearer_prefix(header@) == without_bearer_prefix(
                header@.subrange(cut as int, n as int),
            ),
        decreases n - cut,
    {
        proof {
            let rest = header@.subrange(cut as int, n as int);
            assert(has_bearer_prefix(rest));
            assert(rest.subrange(7, rest.len() as int) =~= header@.subrange(cut + 7, n as int));
        }
        cut += 7;
    }
    let text = header.substring_char(cut, n).to_owned();
    proof {
        let rest = header@.subrange(cut as int, n as int);
        assert(!has_bearer_prefix(rest));
    }
    Some(text)
}

} // verus!
