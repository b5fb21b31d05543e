use contest_greeter::ipc::greeter_client::{
    ClientTask, GreeterClient, GreeterClientMessage, LoginResult,
};

fn client(session: Option<&str>, username: &str, password: &str) -> GreeterClient {
    GreeterClient::new(session.map(|s| s.to_string()), username.to_string(), password.to_string())
}

#[test]
fn login_without_configured_credentials_does_nothing() {
    let mut c = client(Some("Sway"), "", "");
    assert_eq!(c.update(GreeterClientMessage::Login), ClientTask::Idle);
}

#[test]
fn login_with_configured_credentials_hands_them_on() {
    let mut c = client(None, "team1", "hunter2");
    assert_eq!(
        c.update(GreeterClientMessage::Login),
        ClientTask::Done(GreeterClientMessage::LoginWithCredentials(
            "team1".to_string(),
            "hunter2".to_string()
        ))
    );
    let mut nameless = client(None, "", "hunter2");
    assert_eq!(
        nameless.update(GreeterClientMessage::Login),
        ClientTask::Done(GreeterClientMessage::LoginWithCredentials(
            "".to_string(),
            "hunter2".to_string()
        ))
    );
    let mut wordless = client(None, "team1", "");
    assert_eq!(
        wordless.update(GreeterClientMessage::Login),
        ClientTask::Done(GreeterClientMessage::LoginWithCredentials(
            "team1".to_string(),
            "".to_string()
        ))
    );
}

#[test]
fn given_credentials_start_an_attempt_for_the_preferred_session() {
    let mut c = client(Some("Sway"), "team1", "hunter2");
    assert_eq!(
        c.update(GreeterClientMessage::LoginWithCredentials(
            "alice".to_string(),
            "secret".to_string()
        )),
        ClientTask::Attempt {
            username: "alice".to_string(),
            password: "secret".to_string(),
            session: Some("Sway".to_string()),
        }
    );
    let mut plain = client(None, "", "");
    assert_eq!(
        plain.update(GreeterClientMessage::LoginWithCredentials(
            "alice".to_string(),
            "secret".to_string()
        )),
        ClientTask::Attempt {
            username: "alice".to_string(),
            password: "secret".to_string(),
            session: None,
        }
    );
}

#[test]
fn a_failed_verdict_is_passed_on_with_its_reason() {
    let mut c = client(None, "a", "b");
    assert_eq!(
        c.update(GreeterClientMessage::LoginResult(Ok(LoginResult::Failure(
            "wrong username or password".to_string()
        )))),
        ClientTask::Done(GreeterClientMessage::LoginError(
            "wrong username or password".to_string()
        ))
    );
}

#[test]
fn a_broken_attempt_is_passed_on_as_an_unexpected_error() {
    let mut c = client(None, "a", "b");
    assert_eq!(
        c.update(GreeterClientMessage::LoginResult(Err("connection refused".to_string()))),
        ClientTask::Done(GreeterClientMessage::LoginError("Unexpected error".to_string()))
    );
}

#[test]
fn success_and_errors_already_reported_need_nothing_more() {
    let mut c = client(None, "a", "b");
    assert_eq!(
        c.update(GreeterClientMessage::LoginResult(Ok(LoginResult::Success))),
        ClientTask::Idle
    );
    assert_eq!(
        c.update(GreeterClientMessage::LoginError("shown".to_string())),
        ClientTask::Idle
    );
}

#[test]
fn the_client_keeps_its_settings_across_messages() {
    let mut c = client(Some("GNOME"), "team1", "hunter2");
    let _ = c.update(GreeterClientMessage::LoginResult(Err("x".to_string())));
    let _ = c.update(GreeterClientMessage::LoginWithCredentials("u".to_string(), "p".to_string()));
    assert_eq!(
        c.update(GreeterClientMessage::Login),
        ClientTask::Done(GreeterClientMessage::LoginWithCredentials(
            "team1".to_string(),
            "hunter2".to_string()
        ))
    );
    assert_eq!(
        c.update(GreeterClientMessage::LoginWithCredentials("u".to_string(), "p".to_string())),
        ClientTask::Attempt {
            username: "u".to_string(),
            password: "p".to_string(),
            session: Some("GNOME".to_string()),
        }
    );
}
