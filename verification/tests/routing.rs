use hest::rooms::{join_status, rooms_to_join, shows_room_message};
use hest::echo::ECHO_HANDLER_PREFIX;
use hest::{Action, EchoHandler, Handler, Message, Router};

fn msg(body: &str) -> Message {
    Message { body: body.to_string(), from: "alice@example.org".to_string() }
}

fn texts(actions: Vec<Action>) -> Vec<String> {
    actions
        .into_iter()
        .map(|a| match a {
            Action::Reply(t) => t,
        })
        .collect()
}

#[test]
fn echo_wants_only_its_prefix() {
    let h = EchoHandler;
    assert_eq!(h.name(), "EchoHandler");
    assert_eq!(ECHO_HANDLER_PREFIX, "@echo");
    assert!(h.wants(&msg("@echo hi")));
    assert!(h.wants(&msg("@echoes")));
    assert!(!h.wants(&msg(" @echo hi")));
    assert!(!h.wants(&msg("@reminder list")));
}

#[test]
fn echo_replies_with_trimmed_text() {
    let h = EchoHandler;
    assert_eq!(texts(h.process(&msg("@echo   hello there  "))), vec!["echo: hello there"]);
    assert_eq!(texts(h.process(&msg("@echo"))), vec!["echo: "]);
    assert_eq!(texts(h.process(&msg("@echoes"))), vec!["echo: es"]);
}

#[test]
fn router_hands_message_to_first_taker() {
    let router = Router { handlers: vec![Box::new(EchoHandler), Box::new(EchoHandler)] };
    assert_eq!(texts(router.dispatch(&msg("@echo ping"))), vec!["echo: ping"]);
}

#[test]
fn router_without_taker_gives_no_actions() {
    let router = Router { handlers: vec![Box::new(EchoHandler)] };
    assert!(router.dispatch(&msg("hello")).is_empty());
    let empty = Router { handlers: Vec::new() };
    assert!(empty.dispatch(&msg("@echo ping")).is_empty());
}

#[test]
fn joins_only_rooms_named_by_bare_jid_in_order() {
    let rooms = vec![
        "room@muc.example.org".to_string(),
        "not a jid@@".to_string(),
        "".to_string(),
        "other@muc.example.org".to_string(),
    ];
    assert_eq!(rooms_to_join(&rooms), vec![0, 3]);
    assert!(rooms_to_join(&Vec::new()).is_empty());
}

#[test]
fn join_status_defaults_to_empty() {
    assert_eq!(join_status(&Some("here to help".to_string())), "here to help");
    assert_eq!(join_status(&None), "");
}

#[test]
fn replayed_room_messages_are_not_shown() {
    assert!(shows_room_message(0));
    assert!(!shows_room_message(1));
}
