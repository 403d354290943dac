use tm_mumble_link::event::Effect;
use tm_mumble_link::link::{LinkConnectError, LinkSession};
use tm_mumble_link::position::MPos;

#[test]
fn a_new_adapter_has_no_session() {
    let link = LinkSession::new();
    assert!(!link.is_connected());
    assert_eq!(link.nonce().to_text(), "0");
    assert_eq!(link.last_error(), "Mumble not connected");
    assert_eq!(link.identity(), "");
    assert_eq!(link.context(), "");
}

#[test]
fn connect_asks_for_the_link_to_be_opened() {
    let link = LinkSession::new();
    assert_eq!(
        link.connect("app", "what it does"),
        Ok(Effect::OpenLink { name: "app".to_string(), description: "what it does".to_string() })
    );
}

#[test]
fn connect_with_a_session_open_is_already_connected() {
    let mut link = LinkSession::new();
    assert_eq!(link.opened(Ok(())), Ok(()));
    assert!(link.is_connected());
    assert_eq!(link.connect("app", "d"), Err(LinkConnectError::AlreadyConnected));
    assert_eq!(LinkConnectError::AlreadyConnected.to_text(), "Mumble already connected");
}

#[test]
fn a_failed_attempt_keeps_the_reason() {
    let mut link = LinkSession::new();
    let failed = link.opened(Err("no such file".to_string()));
    assert_eq!(failed, Err(LinkConnectError::Failed("no such file".to_string())));
    assert_eq!(failed.unwrap_err().to_text(), "no such file");
    assert!(!link.is_connected());
    assert_eq!(link.last_error(), "no such file");
    assert_eq!(link.opened(Ok(())), Ok(()));
    assert!(link.is_connected());
    assert_eq!(link.last_error(), "");
}

#[test]
fn an_open_session_is_left_alone() {
    let mut link = LinkSession::new();
    assert_eq!(link.opened(Ok(())), Ok(()));
    link.set_identity_and_context("id".to_string(), "ctx".to_string());
    assert_eq!(
        link.opened(Err("late failure".to_string())),
        Err(LinkConnectError::AlreadyConnected)
    );
    assert_eq!(link.opened(Ok(())), Err(LinkConnectError::AlreadyConnected));
    assert!(link.is_connected());
    assert_eq!(link.identity(), "id");
    assert_eq!(link.context(), "ctx");
    assert_eq!(link.nonce().to_text(), "1");
}

#[test]
fn update_without_a_session_does_nothing() {
    let link = LinkSession::new();
    assert_eq!(link.update(MPos::example(1), MPos::example(2)), None);
}

#[test]
fn update_with_a_session_pushes_both_positions() {
    let mut link = LinkSession::new();
    assert_eq!(link.opened(Ok(())), Ok(()));
    assert_eq!(
        link.update(MPos::example(1), MPos::example(2)),
        Some(Effect::LinkUpdate { player: MPos::example(1), camera: MPos::example(2) })
    );
}

#[test]
fn every_push_of_identity_and_context_is_counted() {
    let mut link = LinkSession::new();
    assert_eq!(link.set_identity_and_context("a".to_string(), "b".to_string()), None);
    assert_eq!(link.nonce().to_text(), "1");
    assert_eq!(link.identity(), "");
    assert_eq!(link.opened(Ok(())), Ok(()));
    assert_eq!(
        link.set_identity_and_context("a".to_string(), "b".to_string()),
        Some(Effect::LinkIdentify { identity: "a".to_string(), context: "b".to_string() })
    );
    assert_eq!(link.nonce().to_text(), "2");
    assert_eq!(link.identity(), "a");
    assert_eq!(link.context(), "b");
}
