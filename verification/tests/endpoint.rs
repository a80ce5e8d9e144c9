use session_router::credential::SharedPassword;
use session_router::endpoint::{
    handle_login, handle_send, login_redirect, KEEP_ALIVE_SECONDS, KEEP_ALIVE_TEXT,
};
use session_router::message::{ClientCommand, WorkerMessage};
use session_router::registry::Registry;
use session_router::session::SessionId;

#[test]
fn failed_login_is_redirected_to_the_failure_flag() {
    assert_eq!(login_redirect(None), "/?login_failed=1");
}

#[test]
fn successful_login_is_redirected_to_its_session() {
    let id = SessionId(0x67e5504410b1426f9247bb680e5fe0c8);
    assert_eq!(login_redirect(Some(id)), "/?session_id=67e55044-10b1-426f-9247-bb680e5fe0c8");
}

#[test]
fn redirect_of_the_zero_identity() {
    assert_eq!(
        login_redirect(Some(SessionId(0))),
        "/?session_id=00000000-0000-0000-0000-000000000000"
    );
}

#[test]
fn login_with_the_password_answers_with_the_new_session() {
    let mut registry: Registry<u32> = Registry::new();
    let response = handle_login(&mut registry, &SharedPassword::stub(), "alice", "pw");
    let id = response.session.unwrap();
    assert_eq!(response.location, format!("/?session_id={}", id.to_text()));
    assert_eq!(response.location, format!("/?session_id={}", uuid::Uuid::from_u128(id.0)));
    assert_eq!(registry.username(id), Some("alice"));
}

#[test]
fn login_with_a_wrong_password_answers_with_the_failure_flag() {
    let mut registry: Registry<u32> = Registry::new();
    registry.enroll(SessionId(3), "carol");
    let response = handle_login(&mut registry, &SharedPassword::stub(), "alice", "nope");
    assert_eq!(response.session, None);
    assert_eq!(response.location, "/?login_failed=1");
    let response = handle_login(&mut registry, &SharedPassword::stub(), "carol", "");
    assert_eq!(response.session, None);
    assert_eq!(response.location, "/?login_failed=1");
    assert_eq!(registry.username(SessionId(3)), Some("carol"));
}

#[test]
fn failure_answer_is_the_same_for_every_username() {
    let mut registry: Registry<u32> = Registry::new();
    registry.try_login("alice", "pw").unwrap();
    let known = handle_login(&mut registry, &SharedPassword::stub(), "alice", "bad");
    let unknown = handle_login(&mut registry, &SharedPassword::stub(), "nobody", "bad");
    assert_eq!(known, unknown);
}

#[test]
fn repeated_logins_are_redirected_to_different_sessions() {
    let mut registry: Registry<u32> = Registry::new();
    let first = handle_login(&mut registry, &SharedPassword::stub(), "alice", "pw");
    let second = handle_login(&mut registry, &SharedPassword::stub(), "alice", "pw");
    assert_ne!(first.session.unwrap(), second.session.unwrap());
    assert_ne!(first.location, second.location);
}

#[test]
fn ingress_forwards_the_command_unchecked() {
    let message = handle_send(SessionId(12), ClientCommand::Connect);
    assert_eq!(message, WorkerMessage::FromFrontend(SessionId(12), ClientCommand::Connect));
}

#[test]
fn keep_alive_is_sent_every_second_with_its_marker() {
    assert_eq!(KEEP_ALIVE_SECONDS, 1);
    assert_eq!(KEEP_ALIVE_TEXT, "keep-alive-text");
}
