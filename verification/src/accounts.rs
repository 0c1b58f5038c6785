//! Passwords and sign-in: hashing a new password, checking a password
//! against a stored hash, and the decisions around the users of the
//! application.

use vstd::prelude::*;
use crate::user::NewUser;
use crate::user::User;
use crate::user::UserRole;

verus! {

/// The error of `bcrypt::hash` and `bcrypt::verify`, carried through
/// unread.
#[verifier::external_type_specification]
#[verifier::external_body]
pub struct ExBcryptError(bcrypt::BcryptError);

/// The work factor with which passwords are hashed.
pub const HASH_COST: u32 = 12;

/// Why a password could not be hashed or checked.
#[derive(Clone, Copy, Debug, PartialEq, Eq, Structural)]
pub enum PasswordError {
    /// No hash could be produced.
    HashingFailed,
    /// The stored hash is not a hash that can be checked against.
    MalformedHash,
}

/// What `bcrypt::verify` makes of a password and a hash: whether the
/// password matches, or nothing when the hash cannot be read.
pub uninterp spec fn bcrypt_verdict(password: Seq<char>, hash: Seq<char>) -> Option<bool>;

/// Calls `bcrypt::hash`, which salts at random. Claimed of it: a hash
/// that it returns is one that `bcrypt::verify` accepts for the same
/// password.
#[verifier::external_body]
fn bcrypt_hash(password: &str, cost: u32) -> (r: Result<String, bcrypt::BcryptError>)
    ensures
        r matches Ok(hash) ==> bcrypt_verdict(password@, hash@) == Some(true),
{
    bcrypt::hash(password, cost)
}

/// Calls `bcrypt::verify`. Claimed of it: the result depends on the
/// password and the hash alone, an error standing for a hash that cannot
/// be read.
#[verifier::external_body]
fn bcrypt_verify(password: &str, hash: &str) -> (r: Result<bool, bcrypt::BcryptError>)
    ensures
        match r {
            Ok(matches) => bcrypt_verdict(password@, hash@) == Some(matches),
            Err(_) => bcrypt_verdict(password@, hash@) is None,
        },
{
    bcrypt::verify(password, hash)
}

/// A user whose password has been hashed, ready to be stored.
#[derive(Clone, Debug, PartialEq, Eq)]
pub struct HashedUser {
    pub username: String,
    pub email: String,
    pub password_hash: String,
    pub role: UserRole,
    pub full_name: String,
}

impl HashedUser {
    /// The user that is stored from this under the given identifier:
    /// active, with the hash in place of the password.
    pub open spec fn stored(self, id: i32) -> User {
        User {
            id,
            username: self.username,
            email: self.email,
            password_hash: self.password_hash,
            role: self.role,
            full_name: self.full_name,
            is_active: true,
        }
    }

    /// Gives the user an identifier.
    pub fn with_id(self, id: i32) -> (user: User)
        ensures
            user == self.stored(id),
    {
        User {
            id,
            username: self.username,
            email: self.email,
            password_hash: self.password_hash,
            role: self.role,
            full_name: self.full_name,
            is_active: true,
        }
    }
}

/// Hashes a password for storage. The hash differs from call to call; it
/// is always one that the same password is accepted for.
pub fn hash_password(password: &str) -> (r: Result<String, PasswordError>)
    ensures
        match r {
            Ok(hash) => bcrypt_verdict(password@, hash@) == Some(true),
            Err(e) => e == PasswordError::HashingFailed,
        },
{
    match bcrypt_hash(password, HASH_COST) {
        Ok(hash) => Ok(hash),
        Err(_) => Err(PasswordError::HashingFailed),
    }
}

/// What checking a password against a stored hash gives, for each verdict
/// on the two.
pub open spec fn password_check(verdict: Option<bool>) -> Result<bool, PasswordError> {
    match verdict {
        Some(matches) => Ok(matches),
        None => Err(PasswordError::MalformedHash),
    }
}

/// Checks a password against a stored hash.
pub fn check_password(password: &str, hash: &str) -> (r: Result<bool, PasswordError>)
    ensures
        r == password_check(bcrypt_verdict(password@, hash@)),
{
    match bcrypt_verify(password, hash) {
        Ok(matches) => Ok(matches),
        Err(_) => Err(PasswordError::MalformedHash),
    }
}

/// Replaces the password of the attributes of a new user by its hash.
pub fn create_user(user: NewUser) -> (r: Result<HashedUser, PasswordError>)
    ensures
        match r {
            Ok(hashed) => {
                &&& hashed.username == user.username
                &&& hashed.email == user.email
                &&& hashed.role == user.role
                &&& hashed.full_name == user.full_name
                &&& bcrypt_verdict(user.password@, hashed.password_hash@) == Some(true)
            },
            Err(e) => e == PasswordError::HashingFailed,
        },
{
    match hash_password(user.password.as_str()) {
        Ok(password_hash) => Ok(
            HashedUser {
                username: user.username,
                email: user.email,
                password_hash,
                role: user.role,
                full_name: user.full_name,
            },
        ),
        Err(e) => Err(e),
    }
}

/// Who is signed in, given the user found under a name and the verdict on
/// the password: nobody when no user was found or the password does not
/// match, the user when it matches, and an error when the stored hash
/// cannot be read. Whether the user is active plays no part.
pub open spec fn sign_in(found: Option<User>, verdict: Option<bool>) -> Result<
    Option<User>,
    PasswordError,
> {
    match found {
        None => Ok(None),
        Some(user) => match verdict {
            Some(true) => Ok(Some(user)),
            Some(false) => Ok(None),
            None => Err(PasswordError::MalformedHash),
        },
    }
}

/// Decides a sign-in from the user that was found under the name, if any,
/// and the verdict on the password against that user's hash.
pub fn decide_sign_in(found: Option<User>, verdict: Result<bool, PasswordError>) -> (r: Result<
    Option<User>,
    PasswordError,
>)
    ensures
        found is None ==> r == Ok::<Option<User>, PasswordError>(None),
        found is Some ==> r == (match verdict {
            Ok(true) => Ok(found),
            Ok(false) => Ok(None),
            Err(e) => Err(e),
        }),
{
    match found {
        None => Ok(None),
        Some(user) => match verdict {
            Ok(true) => Ok(Some(user)),
            Ok(false) => Ok(None),
            Err(e) => Err(e),
        },
    }
}

/// Signs a user in: takes the user that was found under the name, if any,
/// and checks the password against that user's hash.
pub fn authenticate_user(found: Option<User>, password: &str) -> (r: Result<
    Option<User>,
    PasswordError,
>)
    ensures
        r == sign_in(
            found,
            match found {
                Some(user) => bcrypt_verdict(password@, user.password_hash@),
                None => None,
            },
        ),
{
    match found {
        None => Ok(None),
        Some(user) => {
            let verdict = check_password(password, user.password_hash.as_str());
            decide_sign_in(Some(user), verdict)
        },
    }
}

/// A user that was created with a password signs in with that password.
pub proof fn lemma_created_user_signs_in(password: Seq<char>, hashed: HashedUser, id: i32)
    requires
        bcrypt_verdict(password, hashed.password_hash@) == Some(true),
    ensures
        sign_in(
            Some(hashed.stored(id)),
            bcrypt_verdict(password, hashed.stored(id).password_hash@),
        ) == Ok::<Option<User>, PasswordError>(Some(hashed.stored(id))),
{
}

/// The attributes of the administrator that an installation without users
/// starts with.
pub open spec fn first_admin(user: NewUser) -> bool {
    &&& user.username@ == "AdminSalesys"@
    &&& user.email@ == "admin@salesys.com"@
    &&& user.password@ == "admin"@
    &&& user.role == UserRole::Admin
    &&& user.full_name@ == "Administrador Principal"@
}

/// The administrator to create when the given number of users exists: one
/// when there is no user at all, none otherwise.
pub fn default_admin(user_count: i64) -> (admin: Option<NewUser>)
    ensures
        admin is Some <==> user_count == 0,
        admin matches Some(user) ==> first_admin(user),
{
    if user_count == 0 {
        Some(
            NewUser {
                username: "AdminSalesys".to_owned(),
                email: "admin@salesys.com".to_owned(),
                password: "admin".to_owned(),
                role: UserRole::Admin,
                full_name: "Administrador Principal".to_owned(),
            },
        )
    } else {
        None
    }
}

/// Why a request about one user cannot be served.
#[derive(Clone, Copy, Debug, PartialEq, Eq, Structural)]
pub enum UserError {
    /// No user has the identifier that was given.
    NotFound,
}

impl UserError {
    /// The text of the error's message.
    pub open spec fn message(self) -> Seq<char> {
        match self {
            UserError::NotFound => "User not found"@,
        }
    }

    /// The message for the caller.
    pub fn describe(&self) -> (text: String)
        ensures
            text@ == self.message(),
    {
        match *self {
            UserError::NotFound => "User not found".to_owned(),
        }
    }
}

/// The user that was asked for by identifier, or `NotFound` when the
/// lookup found none.
pub fn get_user_by_id(found: Option<User>) -> (r: Result<User, UserError>)
    ensures
        r == (match found {
            Some(user) => Ok::<User, UserError>(user),
            None => Err::<User, UserError>(UserError::NotFound),
        }),
{
    match found {
        Some(user) => Ok(user),
        None => Err(UserError::NotFound),
    }
}

/// Whether a user may be deleted, given how many stored users have its
/// identifier: with none there is nothing to delete, and that is an
/// error.
pub fn delete_user(matching_users: i32) -> (r: Result<(), UserError>)
    ensures
        matching_users == 0 ==> r == Err::<(), UserError>(UserError::NotFound),
        matching_users != 0 ==> r == Ok::<(), UserError>(()),
{
    if matching_users == 0 {
        Err(UserError::NotFound)
    } else {
        Ok(())
    }
}

} // verus!
