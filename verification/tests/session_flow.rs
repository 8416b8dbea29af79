use termtalk::bus::BroadcastBus;
use termtalk::registry::NameRegistry;
use termtalk::relay::accept_next;
use termtalk::session::NegotiationStep;
use termtalk::session::ReadEvent;
use termtalk::session::RelayAction;
use termtalk::session::Session;
use termtalk::session::SessionState;
use termtalk::session::user_list_reply;
use termtalk::token::TokenAllocator;

fn drain(bus: &BroadcastBus, sub: &mut termtalk::bus::Subscription) -> Vec<String> {
    let mut lines = Vec::new();
    while let Some(e) = sub.try_receive(bus) {
        lines.push(e.line());
    }
    lines
}

#[test]
fn connect_and_negotiate_names() {
    // Scenario: first client connects, gets token 0, registers "alice";
    // a second client offering "alice" is rejected.
    let mut alloc = TokenAllocator::new();
    let mut registry = NameRegistry::new();

    let first = accept_next(&mut alloc);
    assert_eq!(first.greeting, "Your token: 0\n");
    let mut session = Session::new(first.token);
    let step = session.offer_name(&mut registry, "alice\n");
    match step {
        NegotiationStep::Accepted { reply, notice } => {
            assert_eq!(reply, "SUCCESS: Username accepted.\n");
            assert_eq!(notice.line(), "SERVER: alice has joined the chat!\n");
        }
        NegotiationStep::Rejected { .. } => panic!("free name was rejected"),
    }
    assert_eq!(session.state, SessionState::Relaying);

    let second = accept_next(&mut alloc);
    assert_eq!(second.greeting, "Your token: 1\n");
    let mut other = Session::new(second.token);
    let step = other.offer_name(&mut registry, "alice\n");
    match step {
        NegotiationStep::Rejected { reply } => {
            assert_eq!(reply, "ERROR: Username is already taken. Please choose a different one.\n");
        }
        NegotiationStep::Accepted { .. } => panic!("taken name was accepted"),
    }
    assert_eq!(other.state, SessionState::AwaitingName);
}

#[test]
fn posted_line_reaches_every_session_including_sender() {
    let mut registry = NameRegistry::new();
    let mut bus = BroadcastBus::new();
    let mut session = Session::new(0);
    session.offer_name(&mut registry, "alice");
    let mut sender_inbox = bus.subscribe();
    let mut other_inbox = bus.subscribe();

    match session.on_read_event(ReadEvent::Line("hello @all\n".to_string())) {
        RelayAction::Publish(e) => bus.publish(e),
        _ => panic!("chat line was not published"),
    }
    assert_eq!(drain(&bus, &mut sender_inbox), vec!["alice: hello @all\n".to_string()]);
    assert_eq!(drain(&bus, &mut other_inbox), vec!["alice: hello @all\n".to_string()]);
}

#[test]
fn idle_timeout_probes_and_pong_keeps_session_alive() {
    let mut registry = NameRegistry::new();
    let mut session = Session::new(0);
    session.offer_name(&mut registry, "alice");

    assert!(matches!(session.on_read_event(ReadEvent::TimedOut), RelayAction::SendPing));
    assert!(matches!(
        session.on_read_event(ReadEvent::Line("PONG\n".to_string())),
        RelayAction::Ignore
    ));
    assert_eq!(session.state, SessionState::Relaying);
    assert_eq!(registry.snapshot(), vec!["alice".to_string()]);
}

#[test]
fn user_list_request_is_answered_directly_not_broadcast() {
    let mut registry = NameRegistry::new();
    let bus = BroadcastBus::new();
    let mut alice = Session::new(0);
    alice.offer_name(&mut registry, "alice");
    let mut bob = Session::new(1);
    bob.offer_name(&mut registry, "bob");
    let mut bob_inbox = bus.subscribe();

    assert!(matches!(
        alice.on_read_event(ReadEvent::Line("GET_USERLIST\n".to_string())),
        RelayAction::SendUserList
    ));
    let reply = user_list_reply(&registry);
    assert_eq!(reply, "USERLIST: alice, bob\n");
    assert_eq!(drain(&bus, &mut bob_inbox), Vec::<String>::new());
}

#[test]
fn disconnect_unregisters_and_announces_leave() {
    let mut registry = NameRegistry::new();
    let mut bus = BroadcastBus::new();
    let mut alice = Session::new(0);
    alice.offer_name(&mut registry, "alice");
    let mut bob = Session::new(1);
    bob.offer_name(&mut registry, "bob");
    let mut bob_inbox = bus.subscribe();

    assert!(matches!(
        alice.on_read_event(ReadEvent::Disconnected),
        RelayAction::EndSession
    ));
    let leave = alice.end_session(&mut registry);
    bus.publish(leave);
    assert_eq!(alice.state, SessionState::Closed);
    assert_eq!(registry.snapshot(), vec!["bob".to_string()]);
    // The leave notice is the only broadcast a session end owes; the
    // user-list snapshot is never broadcast, only requested.
    assert_eq!(
        drain(&bus, &mut bob_inbox),
        vec!["SERVER: alice has left the chat!\n".to_string()]
    );
}

#[test]
fn lines_that_trim_to_nothing_are_not_published() {
    let mut registry = NameRegistry::new();
    let mut session = Session::new(0);
    session.offer_name(&mut registry, "alice");
    assert!(matches!(
        session.on_read_event(ReadEvent::Line("   \n".to_string())),
        RelayAction::Ignore
    ));
    assert!(matches!(
        session.on_read_event(ReadEvent::Line("\n".to_string())),
        RelayAction::Ignore
    ));
    assert!(matches!(
        session.on_read_event(ReadEvent::Line("hi\n".to_string())),
        RelayAction::Publish(_)
    ));
}

#[test]
fn abandoned_negotiation_publishes_nothing() {
    let mut registry = NameRegistry::new();
    let mut session = Session::new(0);
    session.abandon();
    assert_eq!(session.state, SessionState::Closed);
    assert_eq!(registry.snapshot(), Vec::<String>::new());
    assert!(registry.try_register(0, "alice") == termtalk::registry::RegisterOutcome::Accepted);
}

#[test]
fn candidate_names_are_trimmed_before_registration() {
    let mut registry = NameRegistry::new();
    let mut session = Session::new(0);
    session.offer_name(&mut registry, "  alice \r\n");
    assert_eq!(registry.snapshot(), vec!["alice".to_string()]);
}
