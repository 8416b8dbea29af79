use termtalk::registry::NameRegistry;
use termtalk::registry::RegisterOutcome;
use termtalk::token::TokenAllocator;

#[test]
fn tokens_are_distinct_and_non_decreasing() {
    let mut alloc = TokenAllocator::new();
    let mut seen = Vec::new();
    for _ in 0..5 {
        seen.push(alloc.next());
    }
    assert_eq!(seen, vec![0, 1, 2, 3, 4]);
    for i in 0..seen.len() {
        for j in (i + 1)..seen.len() {
            assert!(seen[i] < seen[j]);
        }
    }
}

#[test]
fn racing_registrations_of_one_name_accept_exactly_one() {
    // Serialized order of an arbitrary race: the registry's atomic
    // check-and-claim admits only the first attempt.
    let mut reg = NameRegistry::new();
    let outcomes = vec![
        reg.try_register(0, "alice"),
        reg.try_register(1, "alice"),
        reg.try_register(2, "alice"),
    ];
    let accepted = outcomes
        .iter()
        .filter(|o| matches!(o, RegisterOutcome::Accepted))
        .count();
    assert_eq!(accepted, 1);
    assert!(matches!(outcomes[0], RegisterOutcome::Accepted));
    assert!(matches!(outcomes[1], RegisterOutcome::Rejected));
    assert!(matches!(outcomes[2], RegisterOutcome::Rejected));
}

#[test]
fn name_is_reusable_after_release() {
    let mut reg = NameRegistry::new();
    assert!(matches!(reg.try_register(0, "alice"), RegisterOutcome::Accepted));
    assert!(matches!(reg.try_register(1, "alice"), RegisterOutcome::Rejected));
    reg.unregister(0);
    assert!(matches!(reg.try_register(1, "alice"), RegisterOutcome::Accepted));
}

#[test]
fn names_are_case_sensitive_exact_matches() {
    let mut reg = NameRegistry::new();
    assert!(matches!(reg.try_register(0, "Alice"), RegisterOutcome::Accepted));
    assert!(matches!(reg.try_register(1, "alice"), RegisterOutcome::Accepted));
    // The registry itself compares exactly; candidate names are trimmed by
    // the session before registration, never here.
    assert!(matches!(reg.try_register(2, "alice "), RegisterOutcome::Accepted));
    assert!(matches!(reg.try_register(3, "alice"), RegisterOutcome::Rejected));
}

#[test]
fn unregister_is_idempotent() {
    let mut reg = NameRegistry::new();
    assert!(matches!(reg.try_register(0, "alice"), RegisterOutcome::Accepted));
    reg.unregister(0);
    reg.unregister(0);
    reg.unregister(42);
    assert_eq!(reg.snapshot(), Vec::<String>::new());
}

#[test]
fn snapshot_lists_registered_names() {
    let mut reg = NameRegistry::new();
    reg.try_register(0, "alice");
    reg.try_register(1, "bob");
    reg.try_register(2, "carol");
    reg.unregister(1);
    assert_eq!(reg.snapshot(), vec!["alice".to_string(), "carol".to_string()]);
}
