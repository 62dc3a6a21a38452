use nanowrimo::error::Error;
use nanowrimo::json::Json;
use nanowrimo::response::LoginResponse;
use nanowrimo::session::{is_unauthorized, RetryRequest, Session, Step};

fn unauthorized() -> Result<u32, Error> {
    Err(Error::SimpleNanoError(401, "Unauthorized".to_string()))
}

/// Drives a retried request over scripted responses; returns the outcome,
/// the number of sends and the number of logins.
fn drive(session: &mut Session, mut responses: Vec<Result<u32, Error>>, login_ok: bool) -> (Result<u32, Error>, usize, usize) {
    responses.reverse();
    let mut sends = 1;
    let mut logins = 0;
    let mut retry = RetryRequest::new();
    let mut last = responses.pop().unwrap();
    loop {
        match retry.after_response(is_unauthorized(&last), session.is_logged_in()) {
            Step::Finish => return (last, sends, logins),
            Step::Login => {
                logins += 1;
                if login_ok {
                    session.apply_login(LoginResponse { auth_token: "fresh".to_string() });
                    assert_eq!(retry.after_login(true), Step::Send);
                    sends += 1;
                    last = responses.pop().unwrap();
                } else {
                    assert_eq!(retry.after_login(false), Step::Finish);
                    return (Err(Error::Transport("login failed".to_string())), sends, logins);
                }
            },
            Step::Send => unreachable!(),
        }
    }
}

fn logged_in() -> Session {
    let mut s = Session::new_user("writer", "SECRET-REDACTED");
    s.apply_login(LoginResponse { auth_token: "old".to_string() });
    s
}

#[test]
fn refused_then_ok_logs_in_once() {
    let mut s = logged_in();
    let (out, sends, logins) = drive(&mut s, vec![unauthorized(), Ok(200)], true);
    assert_eq!(out, Ok(200));
    assert_eq!((sends, logins), (2, 1));
    assert_eq!(s.token(), Some("fresh"));
}

#[test]
fn refused_twice_returns_the_second_refusal() {
    let mut s = logged_in();
    let (out, sends, logins) = drive(&mut s, vec![unauthorized(), unauthorized(), Ok(200)], true);
    assert!(is_unauthorized(&out));
    assert_eq!((sends, logins), (2, 1));
}

#[test]
fn guest_is_not_retried() {
    let mut s = Session::new_anon();
    let (out, sends, logins) = drive(&mut s, vec![unauthorized(), Ok(200)], true);
    assert!(is_unauthorized(&out));
    assert_eq!((sends, logins), (1, 0));
}

#[test]
fn failed_login_ends_the_request() {
    let mut s = logged_in();
    let (out, sends, logins) = drive(&mut s, vec![unauthorized(), Ok(200)], false);
    assert!(out.is_err());
    assert_eq!((sends, logins), (1, 1));
}

#[test]
fn other_errors_are_not_retried() {
    let mut s = logged_in();
    let (out, sends, logins) =
        drive(&mut s, vec![Err(Error::SimpleNanoError(500, "Internal Server Error".to_string()))], true);
    assert!(out.is_err());
    assert_eq!((sends, logins), (1, 0));
}

#[test]
fn session_states() {
    let anon = Session::new_anon();
    assert!(!anon.is_logged_in());
    assert!(matches!(anon.login_body(), Err(Error::NoCredentials)));

    let mut user = Session::new_user("writer", "pw");
    assert!(!user.is_logged_in());
    match user.login_body().unwrap() {
        Json::Object(e) => {
            assert_eq!(e[0].0, "identifier");
            assert!(matches!(&e[0].1, Json::Str(u) if u == "writer"));
            assert_eq!(e[1].0, "password");
        },
        _ => panic!("login body is an object"),
    }
    user.apply_login(LoginResponse { auth_token: "t1".to_string() });
    assert!(user.is_logged_in());
    assert_eq!(user.token(), Some("t1"));
    user.logout();
    assert!(!user.is_logged_in());
    user.logout();
    assert!(!user.is_logged_in());
    assert!(user.login_body().is_ok());
}
