use link_auth::{
    hello_message, Action, AuthError, CompletionError, Event, Handshake, Message, NodeInfo,
    Registry, Wait,
};

const URI: &str = "https://console.example/psql_session/";

fn id(text: &str) -> String {
    String::from(text)
}

fn greeting_for(session_id: &str) -> Vec<Message> {
    vec![
        Message::AuthenticationOk,
        Message::ClientEncoding,
        Message::Notice(hello_message(URI, session_id)),
    ]
}

fn greeted(registry: &mut Registry<String>, session_id: &str) -> Handshake<String> {
    let (state, action) = Handshake::start_with_id(registry, URI, id(session_id));
    assert_eq!(action, Action::Send { messages: greeting_for(session_id), flush: true });
    let (state, action) = state.step(registry, Event::Sent);
    assert_eq!(action, Action::Wait);
    state
}

#[test]
fn start_registers_the_waiter_and_asks_for_the_greeting() {
    let mut registry: Registry<String> = Registry::new();
    let (state, action) = Handshake::start_with_id(&mut registry, URI, id("abcd1234abcd1234"));
    assert!(registry.is_registered("abcd1234abcd1234"));
    match &state {
        Handshake::AwaitingGreetingSend { waiter } => {
            assert_eq!(waiter.session_id(), "abcd1234abcd1234")
        }
        other => panic!("the handshake stands at {:?}", other),
    }
    assert_eq!(
        action,
        Action::Send {
            messages: vec![
                Message::AuthenticationOk,
                Message::ClientEncoding,
                Message::Notice(id(
                    "Welcome to Neon!\nAuthenticate by visiting:\n    https://console.example/psql_session/abcd1234abcd1234\n\n"
                )),
            ],
            flush: true,
        }
    );
}

#[test]
fn start_under_a_taken_id_is_refused_at_once() {
    let mut registry: Registry<String> = Registry::new();
    let first = greeted(&mut registry, "abcd1234abcd1234");
    let (state, action) = Handshake::start_with_id(&mut registry, URI, id("abcd1234abcd1234"));
    assert_eq!(state, Handshake::Done);
    assert_eq!(action, Action::Finish(Err(AuthError::DuplicateSession)));
    assert!(registry.is_registered("abcd1234abcd1234"));
    assert_eq!(registry.complete("abcd1234abcd1234", Ok(id("db"))), Ok(()));
    let (state, _) = first.step(&mut registry, Event::Woken);
    assert_eq!(state, Handshake::AwaitingNoticeSend { payload: id("db") });
}

#[test]
fn start_draws_an_id_and_puts_it_into_the_link() {
    let mut registry: Registry<String> = Registry::new();
    let (state, action) = Handshake::start(&mut registry, URI);
    let session_id = match &state {
        Handshake::AwaitingGreetingSend { waiter } => id(waiter.session_id()),
        other => panic!("the handshake stands at {:?}", other),
    };
    assert_eq!(session_id.len(), 16);
    assert!(session_id.chars().all(|c| matches!(c, '0'..='9' | 'a'..='f')));
    assert!(registry.is_registered(&session_id));
    assert_eq!(action, Action::Send { messages: greeting_for(&session_id), flush: true });
}

#[test]
fn success_ends_with_the_reported_payload() {
    let mut registry: Registry<String> = Registry::new();
    let state = greeted(&mut registry, "abcd1234abcd1234");
    assert_eq!(registry.complete("abcd1234abcd1234", Ok(id("host=db"))), Ok(()));
    let (state, action) = state.step(&mut registry, Event::Woken);
    assert_eq!(state, Handshake::AwaitingNoticeSend { payload: id("host=db") });
    assert_eq!(
        action,
        Action::Send {
            messages: vec![Message::Notice(id("Connecting to database."))],
            flush: false,
        }
    );
    assert!(registry.is_empty());
    let (state, action) = state.step(&mut registry, Event::Sent);
    assert_eq!(state, Handshake::Done);
    assert_eq!(
        action,
        Action::Finish(Ok(NodeInfo { db_info: id("host=db"), scram_keys: None }))
    );
    assert!(registry.is_empty());
}

#[test]
fn reported_failure_ends_with_its_reason() {
    let mut registry: Registry<String> = Registry::new();
    let state = greeted(&mut registry, "abcd1234abcd1234");
    assert_eq!(
        registry.complete("abcd1234abcd1234", Err(AuthError::AuthFailed(id("denied")))),
        Ok(())
    );
    let (state, action) = state.step(&mut registry, Event::Woken);
    assert_eq!(state, Handshake::Done);
    match action {
        Action::Finish(Err(AuthError::AuthFailed(reason))) => assert!(reason.contains("denied")),
        other => panic!("the handshake asked for {:?}", other),
    }
    assert!(registry.is_empty());
}

#[test]
fn failed_greeting_ends_with_a_transport_error_and_no_slot() {
    let mut registry: Registry<String> = Registry::new();
    let (state, _) = Handshake::start_with_id(&mut registry, URI, id("abcd1234abcd1234"));
    assert!(registry.is_registered("abcd1234abcd1234"));
    let (state, action) = state.step(&mut registry, Event::SendFailed(id("broken pipe")));
    assert_eq!(state, Handshake::Done);
    assert_eq!(action, Action::Finish(Err(AuthError::TransportError(id("broken pipe")))));
    assert!(!registry.is_registered("abcd1234abcd1234"));
    assert!(registry.is_empty());
    assert_eq!(
        registry.complete("abcd1234abcd1234", Ok(id("db"))),
        Err(CompletionError::UnknownSession)
    );
}

#[test]
fn woken_without_an_outcome_keeps_waiting() {
    let mut registry: Registry<String> = Registry::new();
    let state = greeted(&mut registry, "s");
    let (state, action) = state.step(&mut registry, Event::Woken);
    assert_eq!(action, Action::Wait);
    assert!(matches!(state, Handshake::AwaitingExternalCompletion { .. }));
    assert!(registry.is_registered("s"));
    assert_eq!(registry.complete("s", Ok(id("db"))), Ok(()));
    let (state, _) = state.step(&mut registry, Event::Woken);
    assert_eq!(state, Handshake::AwaitingNoticeSend { payload: id("db") });
}

#[test]
fn outcome_that_arrived_during_the_greeting_is_picked_up_at_once() {
    let mut registry: Registry<String> = Registry::new();
    let (state, _) = Handshake::start_with_id(&mut registry, URI, id("s"));
    assert_eq!(registry.complete("s", Ok(id("db"))), Ok(()));
    let (state, action) = state.step(&mut registry, Event::Sent);
    assert_eq!(state, Handshake::AwaitingNoticeSend { payload: id("db") });
    assert_eq!(
        action,
        Action::Send {
            messages: vec![Message::Notice(id("Connecting to database."))],
            flush: false,
        }
    );
    assert!(registry.is_empty());
}

#[test]
fn closed_connection_cancels_the_wait() {
    let mut registry: Registry<String> = Registry::new();
    let state = greeted(&mut registry, "s");
    let (state, action) = state.step(&mut registry, Event::ConnectionClosed);
    assert_eq!(state, Handshake::Done);
    assert_eq!(action, Action::Finish(Err(AuthError::Cancelled)));
    assert!(registry.is_empty());
    assert_eq!(registry.complete("s", Ok(id("db"))), Err(CompletionError::UnknownSession));
}

#[test]
fn timeout_cancels_the_wait() {
    let mut registry: Registry<String> = Registry::new();
    let state = greeted(&mut registry, "s");
    let (state, action) = state.step(&mut registry, Event::TimedOut);
    assert_eq!(state, Handshake::Done);
    assert_eq!(action, Action::Finish(Err(AuthError::Cancelled)));
    assert!(registry.is_empty());
    assert_eq!(registry.complete("s", Ok(id("db"))), Err(CompletionError::UnknownSession));
}

#[test]
fn closed_connection_during_the_greeting_cancels_the_wait() {
    let mut registry: Registry<String> = Registry::new();
    let (state, _) = Handshake::start_with_id(&mut registry, URI, id("s"));
    let (state, action) = state.step(&mut registry, Event::ConnectionClosed);
    assert_eq!(state, Handshake::Done);
    assert_eq!(action, Action::Finish(Err(AuthError::Cancelled)));
    assert!(registry.is_empty());
}

#[test]
fn closed_connection_after_a_completion_drops_the_outcome() {
    let mut registry: Registry<String> = Registry::new();
    let state = greeted(&mut registry, "s");
    assert_eq!(registry.complete("s", Ok(id("db"))), Ok(()));
    let (state, action) = state.step(&mut registry, Event::TimedOut);
    assert_eq!(state, Handshake::Done);
    assert_eq!(action, Action::Finish(Err(AuthError::Cancelled)));
    assert!(registry.is_empty());
}

#[test]
fn failed_last_notice_ends_with_a_transport_error() {
    let mut registry: Registry<String> = Registry::new();
    let state = greeted(&mut registry, "s");
    assert_eq!(registry.complete("s", Ok(id("db"))), Ok(()));
    let (state, _) = state.step(&mut registry, Event::Woken);
    let (state, action) = state.step(&mut registry, Event::SendFailed(id("reset")));
    assert_eq!(state, Handshake::Done);
    assert_eq!(action, Action::Finish(Err(AuthError::TransportError(id("reset")))));
    assert!(registry.is_empty());
}

#[test]
fn closed_connection_during_the_last_notice_ends_cancelled() {
    let mut registry: Registry<String> = Registry::new();
    let state = greeted(&mut registry, "s");
    assert_eq!(registry.complete("s", Ok(id("db"))), Ok(()));
    let (state, _) = state.step(&mut registry, Event::Woken);
    let (state, action) = state.step(&mut registry, Event::ConnectionClosed);
    assert_eq!(state, Handshake::Done);
    assert_eq!(action, Action::Finish(Err(AuthError::Cancelled)));
}

#[test]
fn events_that_do_not_belong_change_nothing() {
    let mut registry: Registry<String> = Registry::new();
    let (state, _) = Handshake::start_with_id(&mut registry, URI, id("s"));
    let (state, action) = state.step(&mut registry, Event::Woken);
    assert_eq!(action, Action::Nothing);
    assert!(matches!(state, Handshake::AwaitingGreetingSend { .. }));
    let (state, _) = state.step(&mut registry, Event::Sent);
    let (state, action) = state.step(&mut registry, Event::Sent);
    assert_eq!(action, Action::Nothing);
    let (state, action) = state.step(&mut registry, Event::SendFailed(id("late")));
    assert_eq!(action, Action::Nothing);
    assert!(matches!(state, Handshake::AwaitingExternalCompletion { .. }));
    assert!(registry.is_registered("s"));
    assert_eq!(registry.complete("s", Ok(id("db"))), Ok(()));
    let (state, _) = state.step(&mut registry, Event::Woken);
    let (state, action) = state.step(&mut registry, Event::Woken);
    assert_eq!(action, Action::Nothing);
    assert_eq!(state, Handshake::AwaitingNoticeSend { payload: id("db") });
}

#[test]
fn finished_handshake_ignores_every_event() {
    let mut registry: Registry<String> = Registry::new();
    let _other = registry.register(id("other")).unwrap();
    let state = greeted(&mut registry, "s");
    let (state, _) = state.step(&mut registry, Event::TimedOut);
    assert_eq!(state, Handshake::Done);
    let (state, action) = state.step(&mut registry, Event::Sent);
    assert_eq!((state, action), (Handshake::Done, Action::Nothing));
    let (state, action) = Handshake::Done.step(&mut registry, Event::SendFailed(id("x")));
    assert_eq!((state, action), (Handshake::Done, Action::Nothing));
    let (state, action) = Handshake::Done.step(&mut registry, Event::Woken);
    assert_eq!((state, action), (Handshake::Done, Action::Nothing));
    let (state, action) = Handshake::Done.step(&mut registry, Event::ConnectionClosed);
    assert_eq!((state, action), (Handshake::Done, Action::Nothing));
    let (state, action) = Handshake::Done.step(&mut registry, Event::TimedOut);
    assert_eq!((state, action), (Handshake::Done, Action::Nothing));
    assert!(registry.is_registered("other"));
}

#[test]
fn two_handshakes_do_not_disturb_each_other() {
    let mut registry: Registry<String> = Registry::new();
    let first = greeted(&mut registry, "1111111111111111");
    let second = greeted(&mut registry, "2222222222222222");
    assert_eq!(registry.complete("1111111111111111", Ok(id("one"))), Ok(()));
    let (second, action) = second.step(&mut registry, Event::Woken);
    assert_eq!(action, Action::Wait);
    let (first, _) = first.step(&mut registry, Event::Woken);
    assert_eq!(first, Handshake::AwaitingNoticeSend { payload: id("one") });
    let (second, action) = second.step(&mut registry, Event::ConnectionClosed);
    assert_eq!(second, Handshake::Done);
    assert_eq!(action, Action::Finish(Err(AuthError::Cancelled)));
    let (_, action) = first.step(&mut registry, Event::Sent);
    assert_eq!(action, Action::Finish(Ok(NodeInfo { db_info: id("one"), scram_keys: None })));
    assert!(registry.is_empty());
}

#[test]
fn slot_removed_behind_the_handshake_ends_it_cancelled() {
    let mut registry: Registry<String> = Registry::new();
    let mut elsewhere: Registry<String> = Registry::new();
    let state = greeted(&mut registry, "s");
    let (state, action) = state.step(&mut elsewhere, Event::Woken);
    assert_eq!(state, Handshake::Done);
    assert_eq!(action, Action::Finish(Err(AuthError::Cancelled)));
    let handle = elsewhere.register(id("t")).unwrap();
    assert!(matches!(elsewhere.await_completion(handle), Wait::Pending(_)));
}
