//! Users and their roles.

use vstd::prelude::*;
use crate::text::same_text;

verus! {

/// What a user may do. The set is closed: a role is one of these three.
#[derive(Clone, Copy, Debug, PartialEq, Eq, Structural)]
pub enum UserRole {
    Admin,
    Seller,
    Manager,
}

/// A user as stored.
#[derive(Clone, Debug, PartialEq, Eq)]
pub struct User {
    pub id: i32,
    pub username: String,
    pub email: String,
    pub password_hash: String,
    pub role: UserRole,
    pub full_name: String,
    pub is_active: bool,
}

/// The attributes from which a user is created, the password in clear.
#[derive(Clone, Debug, PartialEq, Eq)]
pub struct NewUser {
    pub username: String,
    pub email: String,
    pub password: String,
    pub role: UserRole,
    pub full_name: String,
}

/// The role that a stored name stands for, if it stands for one.
pub open spec fn role_named(name: Seq<char>) -> Option<UserRole> {
    if name == "admin"@ {
        Some(UserRole::Admin)
    } else if name == "seller"@ {
        Some(UserRole::Seller)
    } else if name == "manager"@ {
        Some(UserRole::Manager)
    } else {
        None
    }
}

impl UserRole {
    /// The name under which the role is stored.
    pub open spec fn name(self) -> Seq<char> {
        match self {
            UserRole::Admin => "admin"@,
            UserRole::Seller => "seller"@,
            UserRole::Manager => "manager"@,
        }
    }

    /// The name under which the role is stored.
    pub fn as_str(&self) -> (name: &'static str)
        ensures
            name@ == self.name(),
    {
        match *self {
            UserRole::Admin => "admin",
            UserRole::Seller => "seller",
            UserRole::Manager => "manager",
        }
    }

    /// The name under which the role is stored, as an owned string.
    pub fn to_string(&self) -> (name: String)
        ensures
            name@ == self.name(),
    {
        self.as_str().to_owned()
    }

    /// Reads a stored name. A name that stands for no role is rejected
    /// with `None`; it is never taken for some default role.
    pub fn parse(name: &str) -> (role: Option<UserRole>)
        ensures
            role == role_named(name@),
    {
        if same_text(name, "admin") {
            Some(UserRole::Admin)
        } else if same_text(name, "seller") {
            Some(UserRole::Seller)
        } else if same_text(name, "manager") {
            Some(UserRole::Manager)
        } else {
            None
        }
    }
}

/// The names of the roles differ, so a role's name reads back as that
/// role.
pub proof fn lemma_role_name_reads_back(role: UserRole)
    ensures
        role_named(role.name()) == Some(role),
{
    reveal_strlit("admin");
    reveal_strlit("seller");
    reveal_strlit("manager");
    assert("admin"@.len() == 5);
    assert("seller"@.len() == 6);
    assert("manager"@.len() == 7);
}

/// A name is read as a role only if it is that role's name.
pub proof fn lemma_role_named_is_exact(name: Seq<char>, role: UserRole)
    ensures
        role_named(name) == Some(role) <==> name == role.name(),
{
    lemma_role_name_reads_back(role);
}

} // verus!
