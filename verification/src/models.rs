use vstd::prelude::*;
use vstd::string::*;
use crate::text::{i32_decimal, int_decimal};

verus! {

/// What a user may do. Stored in the database as an integer code.
#[derive(PartialEq, Eq, Structural, Debug, Clone, Copy)]
pub enum AccessRights {
    Admin,
    User,
    Unregistered,
}

impl AccessRights {
    /// The integer code under which these rights are stored.
    pub open spec fn spec_code(self) -> i32 {
        match self {
            AccessRights::Admin => 0,
            AccessRights::User => 1,
            AccessRights::Unregistered => 2,
        }
    }

    /// The rights that a stored integer code stands for, if any.
    pub open spec fn spec_from_code(code: i32) -> Option<AccessRights> {
        if code == 0 {
            Some(AccessRights::Admin)
        } else if code == 1 {
            Some(AccessRights::User)
        } else if code == 2 {
            Some(AccessRights::Unregistered)
        } else {
            None
        }
    }

    pub fn code(&self) -> (c: i32)
        ensures
            c == self.spec_code(),
    {
        match self {
            AccessRights::Admin => 0,
            AccessRights::User => 1,
            AccessRights::Unregistered => 2,
        }
    }

    /// The rights stored under `code`; any other code is refused with a
    /// message that names it.
    pub fn from_code(code: i32) -> (r: Result<AccessRights, String>)
        ensures
            match Self::spec_from_code(code) {
                Some(rights) => r == Ok::<AccessRights, String>(rights),
                None => r is Err && r->Err_0@ == unrecognized_rights_message(code),
            },
    {
        if code == 0 {
            Ok(AccessRights::Admin)
        } else if code == 1 {
            Ok(AccessRights::User)
        } else if code == 2 {
            Ok(AccessRights::Unregistered)
        } else {
            let mut message = String::from_str("Unrecognized variant in user rights ");
            let number = i32_decimal(code);
            message.append(number.as_str());
            Err(message)
        }
    }

    /// A route guard admitting users with exactly these rights.
    pub fn guard(access_rights: AccessRights) -> (r: Self)
        ensures
            r == access_rights,
    {
        access_rights
    }

    /// Whether a guard for these rights admits a user whose current rights are
    /// `current`: only the same rights are admitted.
    pub fn permits(&self, current: AccessRights) -> (b: bool)
        ensures
            b == (*self == current),
    {
        *self == current
    }
}

/// The identifier of a user: the 128 bits of its UUID.
pub type UserId = u128;

/// The identifier that stands for no user (the nil UUID).
pub const NIL_USER_ID: u128 = 0u128;

/// A registered user as stored.
#[derive(Debug, Clone)]
pub struct User {
    pub id: UserId,
    pub username: String,
    pub access_rights: AccessRights,
    pub company: Option<String>,
    pub secret: String,
}

/// A user to insert: the normalised login and the password hash.
#[derive(Debug, Clone)]
pub struct NewUser {
    pub username: String,
    pub secret: String,
}

/// A session token and the user it belongs to.
#[derive(Debug, Clone)]
pub struct Token {
    pub token: String,
    pub user_id: UserId,
}

/// A completed timer to insert for a job.
#[derive(Debug, Clone)]
pub struct Timer {
    pub user_id: UserId,
    pub job: String,
    pub started_at: String,
    pub finished_at: String,
}

/// A job to insert for a user.
#[derive(Debug, Clone)]
pub struct NewJob {
    pub job: String,
    pub user_id: UserId,
}

/// A task to insert for a user.
#[derive(Debug, Clone)]
pub struct NewTask {
    pub task: String,
    pub task_group: String,
    pub user_id: UserId,
}

/// A running timer to insert for a task.
#[derive(Debug, Clone)]
pub struct NewTimer {
    pub user_id: UserId,
    pub task: String,
    pub started_at: String,
}

/// A stored task.
#[derive(Debug, Clone)]
pub struct Task {
    pub task: String,
    pub user_id: UserId,
}

/// A running timer as sent to the client: its task and its start.
#[derive(Debug, Clone)]
pub struct FetchTimer {
    pub task: String,
    pub started_at: String,
}

/// The message with which an unknown stored rights code is refused.
pub open spec fn unrecognized_rights_message(code: i32) -> Seq<char> {
    "Unrecognized variant in user rights "@ + int_decimal(code as int)
}

/// Reading back what was stored gives the same rights: decoding the code of
/// any rights yields those rights.
pub proof fn lemma_code_round_trip(rights: AccessRights)
    ensures
        AccessRights::spec_from_code(rights.spec_code()) == Some(rights),
{
}

/// Only the codes of actual rights decode, and they decode to rights with that
/// very code.
pub proof fn lemma_decoded_code_matches(code: i32)
    ensures
        AccessRights::spec_from_code(code) matches Some(rights) ==> rights.spec_code() == code,
        AccessRights::spec_from_code(code) is Some <==> 0 <= code <= 2,
{
}

} // verus!
