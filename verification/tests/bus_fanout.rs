use termtalk::bus::BroadcastBus;
use termtalk::bus::ChatEvent;
use termtalk::bus::BUS_CAPACITY;

fn chat(name: &str, text: &str) -> ChatEvent {
    ChatEvent::Chat { name: name.to_string(), text: text.to_string() }
}

fn received_lines(bus: &BroadcastBus, sub: &mut termtalk::bus::Subscription) -> Vec<String> {
    let mut lines = Vec::new();
    while let Some(e) = sub.try_receive(bus) {
        lines.push(e.line());
    }
    lines
}

#[test]
fn publish_reaches_every_subscription_exactly_once() {
    let mut bus = BroadcastBus::new();
    let mut subs = vec![bus.subscribe(), bus.subscribe(), bus.subscribe()];
    bus.publish(chat("alice", "hello @all"));
    for sub in subs.iter_mut() {
        let lines = received_lines(&bus, sub);
        assert_eq!(lines, vec!["alice: hello @all\n".to_string()]);
    }
}

#[test]
fn subscribers_observe_one_global_order() {
    let mut bus = BroadcastBus::new();
    let mut a = bus.subscribe();
    let mut b = bus.subscribe();
    bus.publish(chat("alice", "first"));
    bus.publish(chat("bob", "second"));
    let seen_a = received_lines(&bus, &mut a);
    let seen_b = received_lines(&bus, &mut b);
    assert_eq!(seen_a, seen_b);
    assert_eq!(seen_a, vec!["alice: first\n".to_string(), "bob: second\n".to_string()]);
}

#[test]
fn subscription_sees_only_later_events() {
    let mut bus = BroadcastBus::new();
    bus.publish(chat("alice", "before"));
    let mut sub = bus.subscribe();
    bus.publish(chat("alice", "after"));
    assert_eq!(received_lines(&bus, &mut sub), vec!["alice: after\n".to_string()]);
}

#[test]
fn overloaded_subscriber_loses_oldest_events_only() {
    let mut bus = BroadcastBus::new();
    let mut sub = bus.subscribe();
    let total = BUS_CAPACITY + 5;
    for i in 0..total {
        bus.publish(chat("alice", &format!("m{}", i)));
    }
    let lines = received_lines(&bus, &mut sub);
    assert_eq!(lines.len(), BUS_CAPACITY);
    // The oldest five were dropped; the newest BUS_CAPACITY arrive in order.
    for (k, line) in lines.iter().enumerate() {
        assert_eq!(line, &format!("alice: m{}\n", k + 5));
    }
}

#[test]
fn event_lines_render_each_shape() {
    let join = ChatEvent::Join { name: "alice".to_string() };
    assert_eq!(join.line(), "SERVER: alice has joined the chat!\n");
    let leave = ChatEvent::Leave { name: "alice".to_string() };
    assert_eq!(leave.line(), "SERVER: alice has left the chat!\n");
    let list = ChatEvent::UserList { names: vec!["alice".to_string(), "bob".to_string()] };
    assert_eq!(list.line(), "USERLIST: alice, bob\n");
    let empty_list = ChatEvent::UserList { names: Vec::new() };
    assert_eq!(empty_list.line(), "USERLIST: \n");
}
