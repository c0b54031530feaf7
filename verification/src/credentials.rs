use vstd::prelude::*;
use vstd::string::*;
use vstd::utf8::encode_utf8;
use argon2::{PasswordHasher, PasswordVerifier};
use crate::errors::{AppError, DbFailure};
use crate::models::{NewUser, User};
use crate::requests::AuthenticationRequest;

verus! {

#[verifier::external_type_specification]
#[verifier::external_body]
pub struct ExPasswordHashError(argon2::password_hash::Error);

/// The PHC string that Argon2id with its default parameters produces for a
/// password and a B64-encoded salt, or `None` when it refuses them.
pub uninterp spec fn argon2_hash(password: Seq<char>, salt: Seq<char>) -> Option<Seq<char>>;

/// Whether a string is a well-formed PHC password hash string.
pub uninterp spec fn phc_parses(secret: Seq<char>) -> bool;

/// Whether Argon2 accepts a password against a well-formed PHC string.
pub uninterp spec fn argon2_accepts(password: Seq<char>, secret: Seq<char>) -> bool;

/// The Unicode lowercase form of a string, as `str::to_lowercase` gives it.
pub uninterp spec fn unicode_lowercase(s: Seq<char>) -> Seq<char>;

/// Whether `secret` is what hashing `password` with some salt produced.
pub open spec fn hashes_to(password: Seq<char>, secret: Seq<char>) -> bool {
    exists|salt: Seq<char>| #[trigger] argon2_hash(password, salt) == Some(secret)
}

/// `str::to_lowercase`: the result is named `unicode_lowercase` of the input.
#[verifier::external_body]
fn lowercase(s: &str) -> (r: String)
    ensures
        r@ == unicode_lowercase(s@),
{
    s.to_lowercase()
}

/// The longest password, in bytes, that Argon2 hashes (`argon2::MAX_PWD_LEN`).
pub const MAX_ARGON2_PASSWORD_BYTES: u64 = 0xFFFF_FFFF;

/// `SaltString::generate(&mut OsRng)`: a fresh random salt from the operating
/// system's generator, the B64 text of 16 random bytes. Which text it is
/// depends on chance and is not stated; what is stated is that every such
/// salt is one Argon2 with its default parameters hashes any password of at
/// most `MAX_ARGON2_PASSWORD_BYTES` bytes with (it decodes to 16 bytes, above
/// the 8-byte minimum, and the default parameters are valid). The call panics
/// if the operating system cannot supply random bytes.
#[verifier::external_body]
fn generate_salt() -> (salt: String)
    ensures
        forall|password: Seq<char>| byte_len(password) <= MAX_ARGON2_PASSWORD_BYTES
            ==> (#[trigger] argon2_hash(password, salt@)) is Some,
{
    argon2::password_hash::SaltString::generate(&mut argon2::password_hash::rand_core::OsRng).as_str().to_string()
}

/// `Argon2::default().hash_password(password, salt)` with the salt read by
/// `Salt::from_b64`, rendered as a PHC string: the result is named
/// `argon2_hash` of the password and the salt; either call's error is passed on.
#[verifier::external_body]
fn hash_password(password: &str, salt: &str) -> (r: Result<String, argon2::password_hash::Error>)
    ensures
        r is Ok <==> argon2_hash(password@, salt@) is Some,
        r matches Ok(h) ==> argon2_hash(password@, salt@) == Some(h@),
{
    let salt = argon2::password_hash::Salt::from_b64(salt)?;
    argon2::Argon2::default().hash_password(password.as_bytes(), salt).map(|h| h.to_string())
}

/// `Argon2::default().verify_password(password, &PasswordHash::new(secret)?)`:
/// fails exactly when the secret is not a well-formed PHC string; otherwise
/// tells whether the password is accepted, named `argon2_accepts`.
/// Recomputing the hash of a password with the salt and parameters recorded
/// in a string that `hash_password` made from that very password reproduces
/// it, so such a password is accepted. That no other password is accepted
/// rests on the hash function and is not stated.
#[verifier::external_body]
fn check_against_hash(password: &str, secret: &str) -> (r: Result<bool, argon2::password_hash::Error>)
    ensures
        r is Ok <==> phc_parses(secret@),
        r is Ok ==> r->Ok_0 == argon2_accepts(password@, secret@),
        hashes_to(password@, secret@) ==> r is Ok && r->Ok_0,
{
    let hash = argon2::password_hash::PasswordHash::new(secret)?;
    Ok(argon2::Argon2::default().verify_password(password.as_bytes(), &hash).is_ok())
}

/// The number of bytes of a password in UTF-8.
pub open spec fn byte_len(s: Seq<char>) -> nat {
    encode_utf8(s).len()
}

/// The password policy: fewer than 8 bytes is too weak, more than 128 too long.
pub open spec fn spec_password_policy(password: Seq<char>) -> Result<(), AppError> {
    if byte_len(password) < 8 {
        Err(AppError::WeakPassword)
    } else if byte_len(password) > 128 {
        Err(AppError::TooLongPassword)
    } else {
        Ok(())
    }
}

/// What checking a password against a stored secret gives: a secret that is
/// not a PHC string is a hashing failure; otherwise the password is accepted
/// or wrong.
pub open spec fn spec_check_password(password: Seq<char>, secret: Seq<char>) -> Result<(), AppError> {
    if !phc_parses(secret) {
        Err(AppError::HashFailure)
    } else if argon2_accepts(password, secret) {
        Ok(())
    } else {
        Err(AppError::WrongPassword)
    }
}

impl AuthenticationRequest {
    /// The username these credentials are stored and looked up under: the
    /// login in lowercase.
    pub open spec fn spec_username(self) -> Seq<char> {
        unicode_lowercase(self.login@)
    }

    pub fn username(&self) -> (name: String)
        ensures
            name@ == self.spec_username(),
    {
        lowercase(self.login.as_str())
    }

    /// Whether the password may be registered.
    pub fn check_password_policy(&self) -> (r: Result<(), AppError>)
        ensures
            r == spec_password_policy(self.password@),
    {
        let n: usize = self.password.as_str().as_bytes().len();
        if n < 8 {
            Err(AppError::WeakPassword)
        } else if n > 128 {
            Err(AppError::TooLongPassword)
        } else {
            Ok(())
        }
    }

    /// The user to store for these credentials when the password is hashed
    /// with `salt`: refused by the password policy, or a hashing failure, or
    /// the lowercase login with the PHC string of the password.
    pub fn registration_record(&self, salt: &str) -> (r: Result<NewUser, AppError>)
        ensures
            match spec_password_policy(self.password@) {
                Err(e) => r matches Err(f) && f == e,
                Ok(_) => match argon2_hash(self.password@, salt@) {
                    None => r matches Err(f) && f == AppError::HashFailure,
                    Some(h) => r matches Ok(u) && u.username@ == self.spec_username() && u.secret@ == h,
                },
            },
    {
        match self.check_password_policy() {
            Err(e) => Err(e),
            Ok(()) => self.hashed_record(salt),
        }
    }

    fn hashed_record(&self, salt: &str) -> (r: Result<NewUser, AppError>)
        ensures
            match argon2_hash(self.password@, salt@) {
                None => r matches Err(f) && f == AppError::HashFailure,
                Some(h) => r matches Ok(u) && u.username@ == self.spec_username() && u.secret@ == h,
            },
    {
        match hash_password(self.password.as_str(), salt) {
            Err(_) => Err(AppError::HashFailure),
            Ok(secret) => Ok(NewUser { username: self.username(), secret }),
        }
    }

    /// The user to store for these credentials, with a fresh random salt:
    /// refused by the password policy (before any salt is drawn), and
    /// otherwise the lowercase login with a hash of the password.
    pub fn prepare_registration(&self) -> (r: Result<NewUser, AppError>)
        ensures
            spec_password_policy(self.password@) matches Err(e) ==> r matches Err(f) && f == e,
            spec_password_policy(self.password@) is Ok ==> (r matches Ok(u)
                && u.username@ == self.spec_username() && hashes_to(self.password@, u.secret@)),
    {
        match self.check_password_policy() {
            Err(e) => Err(e),
            Ok(()) => {
                let salt = generate_salt();
                proof {
                    assert(byte_len(self.password@) <= MAX_ARGON2_PASSWORD_BYTES);
                    assert(argon2_hash(self.password@, salt@) is Some);
                }
                self.hashed_record(salt.as_str())
            },
        }
    }

    /// How inserting the new user went, as the client is answered: a taken
    /// username is `UsernameAlreadyInUse`, other failures as classified.
    pub fn registration_outcome(inserted: Result<(), DbFailure>) -> (r: Result<(), AppError>)
        ensures
            match inserted {
                Ok(()) => r is Ok,
                Err(f) => r matches Err(e) && e == AppError::spec_from_db(f),
            },
    {
        match inserted {
            Ok(()) => Ok(()),
            Err(f) => Err(AppError::from_db(f)),
        }
    }

    /// The user found under the username, or the lookup's failure as
    /// classified (no such user is `NotFound`).
    pub fn found_user(found: Result<User, DbFailure>) -> (r: Result<User, AppError>)
        ensures
            match found {
                Ok(user) => r matches Ok(u) && u == user,
                Err(f) => r matches Err(e) && e == AppError::spec_from_db(f),
            },
    {
        match found {
            Ok(user) => Ok(user),
            Err(f) => Err(AppError::from_db(f)),
        }
    }

    /// Checks the password against the stored secret of the user found
    /// under the username. A password that the secret was made from is
    /// always accepted.
    pub fn check_password(&self, user: &User) -> (r: Result<(), AppError>)
        ensures
            r == spec_check_password(self.password@, user.secret@),
            hashes_to(self.password@, user.secret@) ==> r is Ok,
    {
        match check_against_hash(self.password.as_str(), user.secret.as_str()) {
            Err(_) => Err(AppError::HashFailure),
            Ok(true) => Ok(()),
            Ok(false) => Err(AppError::WrongPassword),
        }
    }
}

/// Signing up and then signing in: registering `signup` with `salt` stores its
/// lowercase login with the hash `registration_record` computes; a later
/// sign-in with the same password and a login that lowercases to the same
/// name looks up that very row, and the stored secret is a hash of the
/// password it presents, which `check_password` accepts. `users` is the users
/// table before sign-up, as username to secret.
pub proof fn lemma_sign_up_then_sign_in(
    signup: AuthenticationRequest,
    signin: AuthenticationRequest,
    salt: Seq<char>,
    users: Map<Seq<char>, Seq<char>>,
)
    requires
        signin.password@ == signup.password@,
        unicode_lowercase(signin.login@) == unicode_lowercase(signup.login@),
        argon2_hash(signup.password@, salt) is Some,
    ensures
        ({
            let stored = users.insert(signup.spec_username(), argon2_hash(signup.password@, salt)->Some_0);
            &&& stored.contains_key(signin.spec_username())
            &&& stored[signin.spec_username()] == argon2_hash(signup.password@, salt)->Some_0
            &&& hashes_to(signin.password@, stored[signin.spec_username()])
        }),
{
    let secret = argon2_hash(signup.password@, salt)->Some_0;
    assert(argon2_hash(signin.password@, salt) == Some(secret));
}

/// The password policy refuses exactly the passwords outside 8 to 128 UTF-8
/// bytes: every password of 8 to 128 bytes passes, only a shorter one is
/// `WeakPassword` and only a longer one `TooLongPassword`.
pub proof fn law_password_policy(password: Seq<char>)
    ensures
        (8 <= byte_len(password) && byte_len(password) <= 128) <==> spec_password_policy(password) == Ok::<(), AppError>(()),
        byte_len(password) < 8 <==> spec_password_policy(password) == Err::<(), AppError>(AppError::WeakPassword),
        byte_len(password) > 128 <==> spec_password_policy(password) == Err::<(), AppError>(AppError::TooLongPassword),
{
}

/// The username of credentials is the whole lowercase login, never cut: it has
/// the lowercase login's length and characters, logins with the same lowercase
/// form share it, and logins whose lowercase forms differ get different ones.
pub proof fn law_username_is_whole_lowercase_login(a: AuthenticationRequest, b: AuthenticationRequest)
    ensures
        a.spec_username().len() == unicode_lowercase(a.login@).len(),
        forall|i: int| 0 <= i < a.spec_username().len() ==> #[trigger] a.spec_username()[i] == unicode_lowercase(a.login@)[i],
        (unicode_lowercase(a.login@) == unicode_lowercase(b.login@)) <==> (a.spec_username() == b.spec_username()),
{
}

} // verus!
