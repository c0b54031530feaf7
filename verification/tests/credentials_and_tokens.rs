use timer_server::errors::{AppError, DbErrorKind, DbFailure};
use timer_server::models::{AccessRights, User};
use timer_server::requests::AuthenticationRequest;
use timer_server::tokens::{create_token, TokenAction, TokenEvent, TokenIssue, TokenStage};

const SALT: &str = "c29tZXNhbHRzb21lc2FsdA";

fn request(login: &str, password: &str) -> AuthenticationRequest {
    AuthenticationRequest { login: login.to_string(), password: password.to_string() }
}

fn stored(username: &str, secret: &str) -> User {
    User {
        id: 7,
        username: username.to_string(),
        access_rights: AccessRights::User,
        company: Some("acme".to_string()),
        secret: secret.to_string(),
    }
}

fn failure(kind: DbErrorKind) -> DbFailure {
    DbFailure { kind, detail: "detail".to_string() }
}

#[test]
fn username_is_the_lowercase_login() {
    assert_eq!(request("JoHn", "x").username(), "john");
    assert_eq!(request("ÀLICE", "x").username(), "àlice");
}

#[test]
fn password_policy_counts_bytes() {
    assert_eq!(request("a", "1234567").check_password_policy(), Err(AppError::WeakPassword));
    assert_eq!(request("a", "12345678").check_password_policy(), Ok(()));
    assert_eq!(request("a", &"x".repeat(128)).check_password_policy(), Ok(()));
    assert_eq!(request("a", &"x".repeat(129)).check_password_policy(), Err(AppError::TooLongPassword));
    assert_eq!(request("a", "ééé").check_password_policy(), Err(AppError::WeakPassword));
    assert_eq!(request("a", "éééé").check_password_policy(), Ok(()));
}

#[test]
fn registration_record_refuses_bad_passwords_first() {
    assert_eq!(request("a", "short").registration_record(SALT).unwrap_err(), AppError::WeakPassword);
    assert_eq!(request("a", &"x".repeat(200)).registration_record(SALT).unwrap_err(), AppError::TooLongPassword);
    assert_eq!(request("a", "short").prepare_registration().unwrap_err(), AppError::WeakPassword);
}

#[test]
fn registration_record_hashes_with_the_salt() {
    let req = request("Alice", "correct horse");
    let record = req.registration_record(SALT).unwrap();
    assert_eq!(record.username, "alice");
    assert!(record.secret.starts_with("$argon2id$v=19$"));
    assert!(record.secret.contains(SALT));
    assert_ne!(record.secret, "correct horse");
    assert_eq!(req.registration_record(SALT).unwrap().secret, record.secret);
    assert_eq!(request("Alice", "correct horse").registration_record("!").unwrap_err(), AppError::HashFailure);
}

#[test]
fn registered_password_signs_in() {
    let req = request("Bob", "hunter42hunter42");
    let record = req.prepare_registration().unwrap();
    assert_eq!(record.username, "bob");
    let user = stored(&record.username, &record.secret);
    assert_eq!(req.check_password(&user), Ok(()));
    assert_eq!(request("BOB", "hunter42hunter42").check_password(&user), Ok(()));
    assert_eq!(request("bob", "hunter43hunter43").check_password(&user), Err(AppError::WrongPassword));
}

#[test]
fn malformed_secret_is_a_hash_failure() {
    let user = stored("bob", "not a phc string");
    assert_eq!(request("bob", "whatever1").check_password(&user), Err(AppError::HashFailure));
}

#[test]
fn database_answers_for_registration_and_lookup() {
    assert_eq!(AuthenticationRequest::registration_outcome(Ok(())), Ok(()));
    assert_eq!(
        AuthenticationRequest::registration_outcome(Err(failure(DbErrorKind::UniqueViolation))),
        Err(AppError::UsernameAlreadyInUse)
    );
    assert_eq!(AuthenticationRequest::found_user(Ok(stored("a", "b"))).unwrap().id, 7);
    assert_eq!(
        AuthenticationRequest::found_user(Err(failure(DbErrorKind::NotFound))).unwrap_err(),
        AppError::NotFound
    );
}

#[test]
fn token_is_base64_of_its_bytes() {
    let bytes: Vec<u8> = (0u8..32).collect();
    let (issue, action) = TokenIssue::start(&stored("a", "b"), &bytes);
    match action {
        TokenAction::InsertToken(t) => {
            assert_eq!(t.token, "AAECAwQFBgcICQoLDA0ODxAREhMUFRYXGBkaGxwdHh8=");
            assert_eq!(t.user_id, 7);
        },
        other => panic!("unexpected {:?}", other),
    }
    drop(issue);
    let (_, action) = TokenIssue::start(&stored("a", "b"), &vec![0u8; 32]);
    match action {
        TokenAction::InsertToken(t) => assert_eq!(t.token, "AAAAAAAAAAAAAAAAAAAAAAAAAAAAAAAAAAAAAAAAAAA="),
        other => panic!("unexpected {:?}", other),
    }
    let (_, action) = TokenIssue::start(&stored("a", "b"), &vec![0xfbu8, 0xff, 0xbf].repeat(11)[..32].to_vec());
    match action {
        TokenAction::InsertToken(t) => assert_eq!(t.token, "+/+/".repeat(10) + "+/8="),
        other => panic!("unexpected {:?}", other),
    }
}

#[test]
fn fresh_tokens_differ_and_have_44_characters() {
    let (_, a) = create_token(&stored("a", "b"));
    let (_, b) = create_token(&stored("a", "b"));
    match (a, b) {
        (TokenAction::InsertToken(a), TokenAction::InsertToken(b)) => {
            assert_eq!(a.token.len(), 44);
            assert_eq!(b.token.len(), 44);
            assert_ne!(a.token, b.token);
        },
        other => panic!("unexpected {:?}", other),
    }
}

fn finished(action: TokenAction) -> Result<String, AppError> {
    match action {
        TokenAction::Finish(r) => r,
        other => panic!("unexpected {:?}", other),
    }
}

#[test]
fn token_issue_without_rotation() {
    let (mut issue, _) = TokenIssue::start(&stored("a", "b"), &vec![0u8; 32]);
    assert!(matches!(issue.step(TokenEvent::Inserted(Ok(()))), TokenAction::CountTokens(7)));
    let token = finished(issue.step(TokenEvent::Counted(3))).unwrap();
    assert_eq!(token, "AAAAAAAAAAAAAAAAAAAAAAAAAAAAAAAAAAAAAAAAAAA=");
}

#[test]
fn token_issue_deletes_the_oldest_beyond_three() {
    let (mut issue, _) = TokenIssue::start(&stored("a", "b"), &vec![0u8; 32]);
    issue.step(TokenEvent::Inserted(Ok(())));
    assert!(matches!(issue.step(TokenEvent::Counted(4)), TokenAction::FetchOldestToken(7)));
    match issue.step(TokenEvent::OldestFound(Ok("old".to_string()))) {
        TokenAction::DeleteToken(t) => assert_eq!(t, "old"),
        other => panic!("unexpected {:?}", other),
    }
    let token = finished(issue.step(TokenEvent::Deleted(Ok(())))).unwrap();
    assert_eq!(token.len(), 44);
    let _ = TokenStage::Done;
}

#[test]
fn token_issue_failures() {
    let (mut issue, _) = TokenIssue::start(&stored("a", "b"), &vec![0u8; 32]);
    assert_eq!(
        finished(issue.step(TokenEvent::Inserted(Err(failure(DbErrorKind::UniqueViolation))))),
        Err(AppError::UsernameAlreadyInUse)
    );
    let (mut issue, _) = TokenIssue::start(&stored("a", "b"), &vec![0u8; 32]);
    issue.step(TokenEvent::Inserted(Ok(())));
    issue.step(TokenEvent::Counted(5));
    assert_eq!(
        finished(issue.step(TokenEvent::OldestFound(Err(failure(DbErrorKind::NotFound))))),
        Err(AppError::NotFound)
    );
    let (mut issue, _) = TokenIssue::start(&stored("a", "b"), &vec![0u8; 32]);
    issue.step(TokenEvent::Inserted(Ok(())));
    issue.step(TokenEvent::Counted(4));
    issue.step(TokenEvent::OldestFound(Ok("old".to_string())));
    assert_eq!(
        finished(issue.step(TokenEvent::Deleted(Err(failure(DbErrorKind::Other))))),
        Err(AppError::DatabaseError(failure(DbErrorKind::Other)))
    );
}

#[test]
fn issued_token_is_read_back_from_the_header() {
    let (_, action) = create_token(&stored("a", "b"));
    match action {
        TokenAction::InsertToken(t) => {
            let read = timer_server::guards::extract_header_token_from_httprequest(Some(t.token.as_bytes()));
            assert_eq!(read, Ok(t.token.clone()));
        },
        other => panic!("unexpected {:?}", other),
    }
}

#[test]
fn in_policy_passwords_always_register() {
    for password in ["12345678", "éééé", &"x".repeat(128)] {
        let record = request("Carol", password).prepare_registration().unwrap();
        assert_eq!(record.username, "carol");
        assert_eq!(request("carol", password).check_password(&stored("carol", &record.secret)), Ok(()));
    }
}
