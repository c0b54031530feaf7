use timer_server::configuration::{parse_port, resolve_port, AuthServer, Configuration};
use timer_server::errors::AppError;
use timer_server::guards::{
    check_token, extract_header_token_from_httprequest, extract_header_token_from_servicerequest, process_token,
    AuthorizedUser, ChangeAccessRights,
};
use timer_server::models::{AccessRights, User};

fn user() -> User {
    User {
        id: 42,
        username: "alice".to_string(),
        access_rights: AccessRights::User,
        company: None,
        secret: "secret".to_string(),
    }
}

#[test]
fn header_token_is_read_byte_for_byte() {
    let value: &[u8] = b"abc+/=\t ~";
    assert_eq!(extract_header_token_from_httprequest(Some(value)), Ok("abc+/=\t ~".to_string()));
    assert_eq!(extract_header_token_from_servicerequest(Some(value)), Ok("abc+/=\t ~".to_string()));
    assert_eq!(extract_header_token_from_httprequest(Some(b"")), Ok(String::new()));
}

#[test]
fn missing_or_unreadable_header_is_refused() {
    assert_eq!(extract_header_token_from_httprequest(None), Err(AppError::NoTokenInHeader));
    assert_eq!(extract_header_token_from_servicerequest(None), Err(AppError::NoTokenInHeader));
    assert_eq!(extract_header_token_from_httprequest(Some(b"ab\ncd")), Err(AppError::Unreachable));
    assert_eq!(extract_header_token_from_servicerequest(Some(&[0x41, 0x7f])), Err(AppError::Unreachable));
    assert_eq!(extract_header_token_from_httprequest(Some(&[0xc3, 0xa9])), Err(AppError::Unreachable));
}

#[test]
fn token_checks() {
    assert_eq!(check_token(Ok(user())).unwrap().id, 42);
    assert_eq!(check_token(Err(AppError::NotFound)).unwrap_err(), AppError::UnauthorizedUser);
    assert_eq!(process_token(Ok(user())), Ok((42, "alice".to_string(), AccessRights::User)));
    assert_eq!(process_token(Err(AppError::HashFailure)), Err(AppError::UnauthorizedUser));
}

#[test]
fn middleware_resolves_who_makes_the_request() {
    let middleware = ChangeAccessRights::new(7u8);
    assert_eq!(*middleware.next_service(), 7u8);
    assert_eq!(middleware.token_to_look_up(Some(b"tok")), "tok");
    assert_eq!(middleware.token_to_look_up(None), "");
    assert_eq!(middleware.token_to_look_up(Some(b"\x01")), "");
    let found = middleware.authorized_user(Ok(user()));
    assert_eq!((found.user_id, found.user_name.as_str(), found.access_rights), (42, "alice", AccessRights::User));
    let nobody = middleware.authorized_user(Err(AppError::NotFound));
    assert_eq!((nobody.user_id, nobody.user_name.as_str(), nobody.access_rights), (0, "", AccessRights::Unregistered));
    let u = AuthorizedUser::unregistered();
    assert_eq!(u.access_rights, AccessRights::Unregistered);
}

#[test]
fn ports_are_read_like_u16() {
    for s in ["0", "80", "8080", "65535", "+80", "0080", "65536", "", "+", "-1", " 80", "80 ", "8o", "99999999", "+-1", "٣"] {
        assert_eq!(parse_port(s), s.parse::<u16>().ok(), "{:?}", s);
    }
}

#[test]
fn environment_port_takes_precedence() {
    let config = Configuration { ip: "127.0.0.1".to_string(), port: "8000".to_string() };
    assert_eq!(resolve_port(None, &config), Some(8000));
    assert_eq!(resolve_port(Some("9000".to_string()), &config), Some(9000));
    assert_eq!(resolve_port(Some("x".to_string()), &config), None);
    let server = AuthServer::new(8000, config);
    assert_eq!(server.port(), 8000);
    assert_eq!(server.config().ip, "127.0.0.1");
}
