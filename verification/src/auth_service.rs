//! Registration, login and user lookup, verified against the user store
//! interface. Validation runs before any storage access; login reports the
//! same failure for an unknown email and for a wrong password.

use vstd::prelude::*;

use crate::dto::{LoginRequest, RegisterRequest};
use crate::error::DomainError;
use crate::security::{JwtKeys, TOKEN_TTL_SECS, hash_password, password_matches, token_of, verify_password};
use crate::store::{
    StoreError, UserRepository, find_user_by_email, find_user_by_id, find_user_by_username,
    unique_user_records, user_email_taken, user_username_taken,
};
use crate::user::{User, UserView};

verus! {

/// Fewest characters a username may have.
pub const MIN_USERNAME_LEN: usize = 6;

/// Fewest characters a password may have.
pub const MIN_PASSWORD_LEN: usize = 8;

/// The case folding that the outside library applies to an email: a function
/// of the characters alone.
pub uninterp spec fn lower_of(s: Seq<char>) -> Seq<char>;

/// Relies on str::to_lowercase: the result depends on the characters alone.
#[verifier::external_body]
fn lowercase(s: &str) -> (r: String)
    ensures
        r@ == lower_of(s@),
{
    s.to_lowercase()
}

/// The registration policy: username and password long enough, email
/// carrying an `@` separator.
pub open spec fn valid_registration(username: Seq<char>, email: Seq<char>, password: Seq<char>) -> bool {
    username.len() >= MIN_USERNAME_LEN && password.len() >= MIN_PASSWORD_LEN && email.contains('@')
}

/// Whether a login attempt is entitled to succeed: the (lowercased) email
/// resolves to a user whose stored hash the password verifies against.
pub open spec fn login_ok(users: Seq<UserView>, email_lower: Seq<char>, password: Seq<char>) -> bool {
    match find_user_by_email(users, email_lower) {
        Some(u) => password_matches(password, u.password_hash),
        None => false,
    }
}

/// What a login attempt that is not entitled to succeed is denied with: one
/// and the same `Unauthorized` value, whether the email is unknown or the
/// password wrong, so the two causes cannot be told apart by the caller.
pub open spec fn login_denial(users: Seq<UserView>, email_lower: Seq<char>, password: Seq<char>) -> Option<DomainError> {
    if login_ok(users, email_lower, password) {
        None
    } else {
        Some(DomainError::Unauthorized)
    }
}

/// Whether this text carries an `@` separator.
#[verifier::loop_isolation(false)]
fn contains_at_sign(s: &str) -> (r: bool)
    ensures
        r == s@.contains('@'),
{
    let n = s.unicode_len();
    let mut i: usize = 0;
    while i < n
        invariant
            0 <= i <= n,
            n == s@.len(),
            forall|k: int| 0 <= k < i ==> s@[k] != '@',
        decreases n - i,
    {
        if s.get_char(i) == '@' {
            return true;
        }
        i = i + 1;
    }
    false
}

/// Registration and login. Holds the user store and the token authority;
/// both are injected at construction.
pub struct AuthService<R: UserRepository> {
    repo: R,
    keys: JwtKeys,
}

impl<R: UserRepository> AuthService<R> {
    /// The user records the service sees, as the store models them.
    pub closed spec fn users(&self) -> Seq<UserView> {
        self.repo.users()
    }

    pub closed spec fn inv(&self) -> bool {
        self.repo.inv()
    }

    /// The signing secret of the token authority this service issues with.
    pub closed spec fn secret(&self) -> Seq<char> {
        self.keys.spec_secret()
    }

    pub fn new(repo: R, keys: JwtKeys) -> (r: Self)
        ensures
            r.users() == repo.users(),
            r.inv() == repo.inv(),
            r.secret() == keys.spec_secret(),
    {
        AuthService { repo, keys }
    }

    pub fn keys(&self) -> (r: &JwtKeys)
        ensures
            r.spec_secret() == self.secret(),
    {
        &self.keys
    }

    /// The model a well-formed service reads keeps identifiers, usernames
    /// and emails unique.
    pub proof fn model_unique(&self)
        requires
            self.inv(),
        ensures
            unique_user_records(self.users()),
    {
        self.repo.inv_unique();
    }

    /// The user a verified token's subject resolves to; used by the caller
    /// resolver ahead of protected operations.
    pub fn get_user(&self, id: u64) -> (r: Result<User, DomainError>)
        requires
            self.inv(),
        ensures
            match r {
                Ok(u) => find_user_by_id(self.users(), id) == Some(u@),
                Err(e) => match e {
                    DomainError::UserNotFound(missing) => missing == id && find_user_by_id(
                        self.users(),
                        id,
                    ) is None,
                    DomainError::Internal => true,
                    _ => false,
                },
            },
    {
        match self.repo.find_by_id(id) {
            Ok(Some(u)) => Ok(u),
            Ok(None) => Err(DomainError::UserNotFound(id)),
            Err(_) => Err(DomainError::Internal),
        }
    }

    /// Registers a user. The policy is checked before any storage access and
    /// rejected input is reported exactly as `InvalidRequest`; the email is
    /// stored lowercased; the password is stored only as a salted one-way
    /// hash that the given password verifies against. A uniqueness violation
    /// reported by the store surfaces as `UserAlreadyExists`; any other
    /// storage or hashing failure as `Internal`. On every failure the store
    /// is unchanged.
    pub fn register(&mut self, req: &RegisterRequest, now: u64) -> (r: Result<User, DomainError>)
        requires
            old(self).inv(),
        ensures
            final(self).inv(),
            final(self).secret() == old(self).secret(),
            r == Err::<User, DomainError>(DomainError::InvalidRequest) <==> !valid_registration(
                req.username@,
                req.email@,
                req.password@,
            ),
            match r {
                Ok(u) => {
                    &&& u@.username == req.username@
                    &&& u@.email == lower_of(req.email@)
                    &&& password_matches(req.password@, u@.password_hash)
                    &&& u@.created_at == now
                    &&& find_user_by_email(old(self).users(), lower_of(req.email@)) is None
                    &&& find_user_by_username(old(self).users(), req.username@) is None
                    &&& find_user_by_id(old(self).users(), u@.id) is None
                    &&& final(self).users() == old(self).users().push(u@)
                },
                Err(e) => {
                    &&& final(self).users() == old(self).users()
                    &&& match e {
                        DomainError::InvalidRequest => true,
                        DomainError::UserAlreadyExists => user_email_taken(
                            old(self).users(),
                            lower_of(req.email@),
                        ) || user_username_taken(old(self).users(), req.username@),
                        DomainError::Internal => true,
                        _ => false,
                    }
                },
            },
    {
        let valid = req.username.as_str().unicode_len() >= MIN_USERNAME_LEN
            && req.password.as_str().unicode_len() >= MIN_PASSWORD_LEN && contains_at_sign(
            req.email.as_str(),
        );
        if !valid {
            return Err(DomainError::InvalidRequest);
        }
        let hash = match hash_password(req.password.as_str()) {
            Some(h) => h,
            None => {
                return Err(DomainError::Internal);
            },
        };
        let email_lower = lowercase(req.email.as_str());
        match self.repo.create(req.username.clone(), email_lower, hash, now) {
            Ok(u) => Ok(u),
            Err(StoreError::Conflict) => Err(DomainError::UserAlreadyExists),
            Err(StoreError::Backend) => Err(DomainError::Internal),
        }
    }

    /// Logs a caller in by email (matched case-insensitively) and password,
    /// and issues a token for the resolved user. An unknown email and a
    /// wrong password return the very same `Unauthorized` value, so the two
    /// are indistinguishable to the caller; a token accepted means the
    /// attempt was entitled to succeed. `Internal` surfaces only storage or
    /// signing failures.
    pub fn login(&self, req: &LoginRequest, now: u64) -> (r: Result<String, DomainError>)
        requires
            self.inv(),
            now + TOKEN_TTL_SECS <= u64::MAX,
        ensures
            match r {
                Ok(t) => {
                    &&& login_ok(self.users(), lower_of(req.email@), req.password@)
                    &&& find_user_by_email(self.users(), lower_of(req.email@)) matches Some(u)
                        && t@ == token_of(
                        u.id,
                        now,
                        (now + TOKEN_TTL_SECS) as u64,
                        self.secret(),
                    )
                },
                Err(e) => match e {
                    DomainError::Unauthorized => !login_ok(
                        self.users(),
                        lower_of(req.email@),
                        req.password@,
                    ),
                    DomainError::Internal => true,
                    _ => false,
                },
            },
    {
        let email_lower = lowercase(req.email.as_str());
        let found = match self.repo.find_by_email(email_lower.as_str()) {
            Ok(f) => f,
            Err(_) => {
                return Err(DomainError::Internal);
            },
        };
        let user = match found {
            Some(u) => u,
            None => {
                return Err(DomainError::Unauthorized);
            },
        };
        let valid = verify_password(req.password.as_str(), user.password_hash.as_str());
        if !valid {
            return Err(DomainError::Unauthorized);
        }
        Ok(self.keys.generate_token(user.id, now))
    }
}

} // verus!
