//! What the database operations decide between their statements: the rows
//! to write, and the answers their results become.
pub mod job;
pub mod process_tasks;

use vstd::prelude::*;
use crate::errors::{AppError, DbFailure};
use crate::models::{Token, User};

verus! {

/// A statement's result as answered: a failure as classified.
pub open spec fn spec_classified<T>(r: Result<T, DbFailure>) -> Result<T, AppError> {
    match r {
        Ok(v) => Ok(v),
        Err(f) => Err(AppError::spec_from_db(f)),
    }
}

pub fn classified<T>(r: Result<T, DbFailure>) -> (a: Result<T, AppError>)
    ensures
        a == spec_classified(r),
{
    match r {
        Ok(v) => Ok(v),
        Err(f) => Err(AppError::from_db(f)),
    }
}

/// A statement's result as answered when the failure is passed on as a bare
/// database error, whatever its kind.
pub open spec fn spec_unclassified<T>(r: Result<T, DbFailure>) -> Result<T, AppError> {
    match r {
        Ok(v) => Ok(v),
        Err(f) => Err(AppError::DatabaseError(f)),
    }
}

pub fn unclassified<T>(r: Result<T, DbFailure>) -> (a: Result<T, AppError>)
    ensures
        a == spec_unclassified(r),
{
    match r {
        Ok(v) => Ok(v),
        Err(f) => Err(AppError::DatabaseError(f)),
    }
}

/// The user a session token belongs to, given how looking it up went: no
/// such token is `NotFound`, other failures as classified.
pub fn get_user_by_token(found: Result<User, DbFailure>) -> (r: Result<User, AppError>)
    ensures
        r == spec_classified(found),
{
    classified(found)
}

/// A stored session token, given how looking it up went.
pub fn fetch_token(found: Result<Token, DbFailure>) -> (r: Result<Token, AppError>)
    ensures
        r == spec_classified(found),
{
    classified(found)
}

} // verus!
