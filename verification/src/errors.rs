use vstd::prelude::*;
use vstd::string::*;

verus! {

/// How the database reported a failed statement.
#[derive(PartialEq, Eq, Structural, Debug, Clone, Copy)]
pub enum DbErrorKind {
    /// A unique constraint was violated.
    UniqueViolation,
    /// The transaction could not be serialized.
    SerializationFailure,
    /// A not-null constraint was violated.
    NotNullViolation,
    /// The query returned no row where one was expected.
    NotFound,
    /// Any other failure.
    Other,
}

/// A failed database statement: its kind and the database layer's own
/// description of it.
#[derive(Debug, Clone, PartialEq, Eq)]
pub struct DbFailure {
    pub kind: DbErrorKind,
    pub detail: String,
}

/// A blocking database task that was cancelled before it finished.
#[derive(PartialEq, Eq, Structural, Debug, Clone, Copy)]
pub struct TaskCanceled;

/// Every error the server answers a request with.
#[derive(Debug, Clone, PartialEq, Eq)]
pub enum AppError {
    UsernameAlreadyInUse,
    SerializationFailure,
    WeakPassword,
    TooLongPassword,
    WrongPassword,
    NoTokenInHeader,
    UnauthorizedUser,
    Unreachable,
    NotNullViolation,
    NotFound,
    DatabaseError(DbFailure),
    OperationCanceled,
    HashFailure,
}

impl AppError {
    /// The error that a failed database statement is reported as.
    pub open spec fn spec_from_db(failure: DbFailure) -> AppError {
        match failure.kind {
            DbErrorKind::UniqueViolation => AppError::UsernameAlreadyInUse,
            DbErrorKind::SerializationFailure => AppError::SerializationFailure,
            DbErrorKind::NotNullViolation => AppError::NotNullViolation,
            DbErrorKind::NotFound => AppError::NotFound,
            DbErrorKind::Other => AppError::DatabaseError(failure),
        }
    }

    /// Classifies a failed database statement.
    pub fn from_db(failure: DbFailure) -> (e: AppError)
        ensures
            e == Self::spec_from_db(failure),
    {
        match failure.kind {
            DbErrorKind::UniqueViolation => AppError::UsernameAlreadyInUse,
            DbErrorKind::SerializationFailure => AppError::SerializationFailure,
            DbErrorKind::NotNullViolation => AppError::NotNullViolation,
            DbErrorKind::NotFound => AppError::NotFound,
            DbErrorKind::Other => AppError::DatabaseError(failure),
        }
    }

    /// A cancelled blocking database task is answered `OperationCanceled`.
    pub fn from_canceled(_canceled: TaskCanceled) -> (e: AppError)
        ensures
            e == AppError::OperationCanceled,
    {
        AppError::OperationCanceled
    }

    /// The text sent to the client for this error.
    pub open spec fn spec_message(self) -> Seq<char> {
        match self {
            AppError::UsernameAlreadyInUse => "already_registered"@,
            AppError::SerializationFailure => "read_or_write_db_serialization_error"@,
            AppError::WeakPassword => "weak_password"@,
            AppError::TooLongPassword => "too_long_password"@,
            AppError::WrongPassword => "wrong_password"@,
            AppError::NoTokenInHeader => "there_is_no_token_in_the_header"@,
            AppError::UnauthorizedUser => "authorization_error"@,
            AppError::Unreachable => "not enough user rights for access"@,
            AppError::NotNullViolation => "cant_be_null"@,
            AppError::NotFound => "user_not_found"@,
            AppError::DatabaseError(failure) => "Database error: "@ + failure.detail@,
            AppError::OperationCanceled => "database_cancel_operation"@,
            AppError::HashFailure => "hash_failure"@,
        }
    }

    pub fn message(&self) -> (s: String)
        ensures
            s@ == self.spec_message(),
    {
        match self {
            AppError::UsernameAlreadyInUse => String::from_str("already_registered"),
            AppError::SerializationFailure => String::from_str("read_or_write_db_serialization_error"),
            AppError::WeakPassword => String::from_str("weak_password"),
            AppError::TooLongPassword => String::from_str("too_long_password"),
            AppError::WrongPassword => String::from_str("wrong_password"),
            AppError::NoTokenInHeader => String::from_str("there_is_no_token_in_the_header"),
            AppError::UnauthorizedUser => String::from_str("authorization_error"),
            AppError::Unreachable => String::from_str("not enough user rights for access"),
            AppError::NotNullViolation => String::from_str("cant_be_null"),
            AppError::NotFound => String::from_str("user_not_found"),
            AppError::DatabaseError(failure) => {
                let mut s = String::from_str("Database error: ");
                s.append(failure.detail.as_str());
                s
            },
            AppError::OperationCanceled => String::from_str("database_cancel_operation"),
            AppError::HashFailure => String::from_str("hash_failure"),
        }
    }

    /// The HTTP status code the error is answered with.
    pub open spec fn spec_status_code(self) -> u16 {
        match self {
            AppError::UsernameAlreadyInUse => 400,
            AppError::WeakPassword => 411,
            AppError::TooLongPassword => 403,
            AppError::Unreachable => 403,
            AppError::WrongPassword => 400,
            AppError::UnauthorizedUser => 401,
            AppError::NotNullViolation => 400,
            AppError::NotFound => 404,
            _ => 500,
        }
    }

    pub fn status_code(&self) -> (c: u16)
        ensures
            c == self.spec_status_code(),
    {
        match self {
            AppError::UsernameAlreadyInUse => 400,
            AppError::WeakPassword => 411,
            AppError::TooLongPassword => 403,
            AppError::Unreachable => 403,
            AppError::WrongPassword => 400,
            AppError::UnauthorizedUser => 401,
            AppError::NotNullViolation => 400,
            AppError::NotFound => 404,
            _ => 500,
        }
    }
}

/// A failure the database names by kind is never answered as a bare internal
/// database error, and one it does not name always is.
pub proof fn lemma_db_classification(failure: DbFailure)
    ensures
        (AppError::spec_from_db(failure) is DatabaseError) <==> failure.kind == DbErrorKind::Other,
        AppError::spec_from_db(failure) is DatabaseError ==> AppError::spec_from_db(failure)->DatabaseError_0 == failure,
{
}

} // verus!
