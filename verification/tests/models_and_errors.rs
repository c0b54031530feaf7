use timer_server::errors::{AppError, DbErrorKind, DbFailure, TaskCanceled};
use timer_server::models::AccessRights;
use timer_server::text::i32_decimal;

fn failure(kind: DbErrorKind) -> DbFailure {
    DbFailure { kind, detail: "detail".to_string() }
}

#[test]
fn access_rights_codes_round_trip() {
    for rights in [AccessRights::Admin, AccessRights::User, AccessRights::Unregistered] {
        assert_eq!(AccessRights::from_code(rights.code()), Ok(rights));
    }
    assert_eq!(AccessRights::Admin.code(), 0);
    assert_eq!(AccessRights::User.code(), 1);
    assert_eq!(AccessRights::Unregistered.code(), 2);
}

#[test]
fn unknown_access_rights_code_is_refused_with_its_number() {
    assert_eq!(AccessRights::from_code(3), Err("Unrecognized variant in user rights 3".to_string()));
    assert_eq!(AccessRights::from_code(-1), Err("Unrecognized variant in user rights -1".to_string()));
    assert_eq!(
        AccessRights::from_code(i32::MIN),
        Err("Unrecognized variant in user rights -2147483648".to_string())
    );
}

#[test]
fn decimal_text_matches_display() {
    for x in [0, 7, 10, 99, 100, 12345, i32::MAX, -5, -10, i32::MIN] {
        assert_eq!(i32_decimal(x), x.to_string());
    }
}

#[test]
fn guard_admits_only_the_same_rights() {
    let guard = AccessRights::guard(AccessRights::User);
    assert_eq!(guard, AccessRights::User);
    assert!(guard.permits(AccessRights::User));
    assert!(!guard.permits(AccessRights::Admin));
    assert!(!guard.permits(AccessRights::Unregistered));
    assert!(AccessRights::guard(AccessRights::Unregistered).permits(AccessRights::Unregistered));
}

#[test]
fn database_failures_are_classified() {
    assert_eq!(AppError::from_db(failure(DbErrorKind::UniqueViolation)), AppError::UsernameAlreadyInUse);
    assert_eq!(AppError::from_db(failure(DbErrorKind::SerializationFailure)), AppError::SerializationFailure);
    assert_eq!(AppError::from_db(failure(DbErrorKind::NotNullViolation)), AppError::NotNullViolation);
    assert_eq!(AppError::from_db(failure(DbErrorKind::NotFound)), AppError::NotFound);
    assert_eq!(
        AppError::from_db(failure(DbErrorKind::Other)),
        AppError::DatabaseError(failure(DbErrorKind::Other))
    );
}

#[test]
fn error_messages() {
    let cases = [
        (AppError::UsernameAlreadyInUse, "already_registered"),
        (AppError::SerializationFailure, "read_or_write_db_serialization_error"),
        (AppError::WeakPassword, "weak_password"),
        (AppError::TooLongPassword, "too_long_password"),
        (AppError::WrongPassword, "wrong_password"),
        (AppError::NoTokenInHeader, "there_is_no_token_in_the_header"),
        (AppError::UnauthorizedUser, "authorization_error"),
        (AppError::Unreachable, "not enough user rights for access"),
        (AppError::NotNullViolation, "cant_be_null"),
        (AppError::NotFound, "user_not_found"),
        (AppError::OperationCanceled, "database_cancel_operation"),
        (AppError::HashFailure, "hash_failure"),
    ];
    for (error, text) in cases {
        assert_eq!(error.message(), text);
    }
    let db = AppError::DatabaseError(DbFailure { kind: DbErrorKind::Other, detail: "RollbackTransaction".to_string() });
    assert_eq!(db.message(), "Database error: RollbackTransaction");
}

#[test]
fn error_status_codes() {
    assert_eq!(AppError::UsernameAlreadyInUse.status_code(), 400);
    assert_eq!(AppError::WeakPassword.status_code(), 411);
    assert_eq!(AppError::TooLongPassword.status_code(), 403);
    assert_eq!(AppError::Unreachable.status_code(), 403);
    assert_eq!(AppError::WrongPassword.status_code(), 400);
    assert_eq!(AppError::UnauthorizedUser.status_code(), 401);
    assert_eq!(AppError::NotNullViolation.status_code(), 400);
    assert_eq!(AppError::NotFound.status_code(), 404);
    assert_eq!(AppError::SerializationFailure.status_code(), 500);
    assert_eq!(AppError::NoTokenInHeader.status_code(), 500);
    assert_eq!(AppError::OperationCanceled.status_code(), 500);
    assert_eq!(AppError::HashFailure.status_code(), 500);
    assert_eq!(AppError::DatabaseError(failure(DbErrorKind::Other)).status_code(), 500);
}

#[test]
fn cancelled_task_is_operation_canceled() {
    assert_eq!(AppError::from_canceled(TaskCanceled), AppError::OperationCanceled);
    assert_eq!(AppError::from_canceled(TaskCanceled).message(), "database_cancel_operation");
}
