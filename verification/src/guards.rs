use vstd::prelude::*;
use crate::errors::AppError;
use crate::models::{AccessRights, User, UserId, NIL_USER_ID};
use crate::text::push_char;

verus! {

/// A byte that an HTTP header value may hold for it to be read as text:
/// visible ASCII or a horizontal tab.
pub open spec fn is_visible_ascii(b: u8) -> bool {
    (32 <= b && b < 127) || b == 9
}

/// The text of a header value made of such bytes: each byte as its character.
pub open spec fn ascii_text(bytes: Seq<u8>) -> Seq<char> {
    Seq::new(bytes.len(), |i: int| bytes[i] as char)
}

/// What reading the `authorization` header gives: no header is refused with
/// `NoTokenInHeader`, a value with a byte that is not visible ASCII with
/// `Unreachable`, and any other value is the token, byte for byte.
pub open spec fn spec_header_token(header: Option<Seq<u8>>) -> Result<Seq<char>, AppError> {
    match header {
        None => Err(AppError::NoTokenInHeader),
        Some(bytes) => if forall|i: int| 0 <= i < bytes.len() ==> is_visible_ascii(#[trigger] bytes[i]) {
            Ok(ascii_text(bytes))
        } else {
            Err(AppError::Unreachable)
        },
    }
}

pub open spec fn header_view(header: Option<&[u8]>) -> Option<Seq<u8>> {
    match header {
        None => None,
        Some(bytes) => Some(bytes@),
    }
}

pub open spec fn result_view(r: Result<String, AppError>) -> Result<Seq<char>, AppError> {
    match r {
        Ok(s) => Ok(s@),
        Err(e) => Err(e),
    }
}

fn header_token(header: Option<&[u8]>) -> (r: Result<String, AppError>)
    ensures
        result_view(r) == spec_header_token(header_view(header)),
{
    match header {
        None => Err(AppError::NoTokenInHeader),
        Some(bytes) => {
            let mut token = String::new();
            let mut i: usize = 0;
            while i < bytes.len()
                invariant
                    header_view(header) == Some(bytes@),
                    i <= bytes@.len(),
                    forall|j: int| 0 <= j < i ==> is_visible_ascii(#[trigger] bytes@[j]),
                    token@ == ascii_text(bytes@.take(i as int)),
                decreases bytes@.len() - i,
            {
                let b: u8 = bytes[i];
                if !((32 <= b && b < 127) || b == 9) {
                    assert(!is_visible_ascii(bytes@[i as int]));
                    return Err(AppError::Unreachable);
                }
                push_char(&mut token, b as char);
                proof {
                    assert(ascii_text(bytes@.take(i + 1)) =~= ascii_text(bytes@.take(i as int)).push(b as char));
                }
                i = i + 1;
            }
            proof {
                assert(bytes@.take(i as int) =~= bytes@);
            }
            Ok(token)
        },
    }
}

/// The session token in the `authorization` header of a request seen by the
/// authorization middleware (`header` is the header's value, if any).
pub fn extract_header_token_from_servicerequest(header: Option<&[u8]>) -> (r: Result<String, AppError>)
    ensures
        result_view(r) == spec_header_token(header_view(header)),
{
    header_token(header)
}

/// The session token in the `authorization` header of a request seen by a
/// route handler (`header` is the header's value, if any).
pub fn extract_header_token_from_httprequest(header: Option<&[u8]>) -> (r: Result<String, AppError>)
    ensures
        result_view(r) == spec_header_token(header_view(header)),
{
    header_token(header)
}

/// The user a token was looked up to, or `UnauthorizedUser` whatever made
/// the lookup fail.
pub fn check_token(lookup: Result<User, AppError>) -> (r: Result<User, AppError>)
    ensures
        match lookup {
            Ok(user) => r matches Ok(u) && u == user,
            Err(_) => r == Err::<User, AppError>(AppError::UnauthorizedUser),
        },
{
    match lookup {
        Ok(user) => Ok(user),
        Err(_) => Err(AppError::UnauthorizedUser),
    }
}

/// Identifier, name and rights of the user a token was looked up to, or
/// `UnauthorizedUser` whatever made the lookup fail.
pub fn process_token(lookup: Result<User, AppError>) -> (r: Result<(UserId, String, AccessRights), AppError>)
    ensures
        match lookup {
            Ok(user) => r matches Ok(t) && t.0 == user.id && t.1@ == user.username@ && t.2 == user.access_rights,
            Err(_) => r matches Err(e) && e == AppError::UnauthorizedUser,
        },
{
    match check_token(lookup) {
        Ok(user) => Ok((user.id, user.username, user.access_rights)),
        Err(_) => Err(AppError::UnauthorizedUser),
    }
}

/// Who the current request is made by, as the route guards see it.
#[derive(Debug, Clone)]
pub struct AuthorizedUser {
    pub user_id: UserId,
    pub user_name: String,
    pub access_rights: AccessRights,
}

impl AuthorizedUser {
    /// Nobody: the nil identifier, no name, and unregistered rights.
    pub open spec fn is_nobody(self) -> bool {
        &&& self.user_id == NIL_USER_ID
        &&& self.user_name@ == Seq::<char>::empty()
        &&& self.access_rights == AccessRights::Unregistered
    }

    pub fn unregistered() -> (u: AuthorizedUser)
        ensures
            u.is_nobody(),
    {
        AuthorizedUser { user_id: NIL_USER_ID, user_name: String::new(), access_rights: AccessRights::Unregistered }
    }
}

/// The middleware that, before each request, sets who the request is made by
/// from the session token it carries; `service` is the next service.
pub struct ChangeAccessRights<S> {
    service: S,
}

impl<S> ChangeAccessRights<S> {
    pub fn new(service: S) -> (m: Self)
        ensures
            m.service() == service,
    {
        ChangeAccessRights { service }
    }

    pub closed spec fn service(self) -> S {
        self.service
    }

    /// The next service.
    pub fn next_service(&self) -> (s: &S)
        ensures
            *s == self.service(),
    {
        &self.service
    }

    /// The token to look the user up by: the one in the header, or the empty
    /// token when the header gives none.
    pub fn token_to_look_up(&self, header: Option<&[u8]>) -> (token: String)
        ensures
            match spec_header_token(header_view(header)) {
                Ok(t) => token@ == t,
                Err(_) => token@ == Seq::<char>::empty(),
            },
    {
        match extract_header_token_from_servicerequest(header) {
            Ok(token) => token,
            Err(_) => String::new(),
        }
    }

    /// Who the request is made by, given how the lookup of its token went:
    /// the user found, or nobody when the lookup failed.
    pub fn authorized_user(&self, lookup: Result<User, AppError>) -> (u: AuthorizedUser)
        ensures
            match lookup {
                Ok(user) => u.user_id == user.id && u.user_name@ == user.username@ && u.access_rights == user.access_rights,
                Err(_) => u.is_nobody(),
            },
    {
        match process_token(lookup) {
            Ok((user_id, user_name, access_rights)) => AuthorizedUser { user_id, user_name, access_rights },
            Err(_) => AuthorizedUser::unregistered(),
        }
    }
}

/// A request whose token does not lead to a user is treated as made by nobody,
/// and only an `Unregistered` guard admits it.
pub proof fn lemma_failed_lookup_is_unregistered(u: AuthorizedUser, guard: AccessRights)
    requires
        u.is_nobody(),
    ensures
        (guard == u.access_rights) <==> guard == AccessRights::Unregistered,
{
}

} // verus!
