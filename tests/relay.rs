use keyrelay::{Action, Keys, Phase, Relay, SpecialKey, TransportError};

fn err() -> TransportError {
    TransportError { message: "timed out".to_string() }
}

fn listing(ids: &[&str]) -> Result<Vec<String>, TransportError> {
    Ok(ids.iter().map(|s| s.to_string()).collect())
}

fn is_send(a: &Action) -> bool {
    matches!(a, Action::SendKey(_, _))
}

/// Runs one tick against a fake endpoint set; returns the key sent, if any.
fn tick(
    r: &mut Relay,
    ids: Result<Vec<String>, TransportError>,
    ready: Result<bool, TransportError>,
    send_ok: bool,
) -> Option<(String, Keys)> {
    assert!(matches!(r.begin_tick(), Action::ListEndpoints));
    match r.on_endpoints(ids) {
        Action::QueryReadiness(_) => {}
        Action::Idle => return None,
        other => panic!("unexpected {:?}", other),
    }
    match r.on_readiness(ready) {
        Action::SendKey(id, k) => {
            let outcome = if send_ok { Ok(()) } else { Err(err()) };
            assert!(matches!(r.on_sent(outcome), Action::Idle));
            assert_eq!(r.phase(), Phase::Idle);
            Some((id, k))
        }
        Action::Idle => None,
        other => panic!("unexpected {:?}", other),
    }
}

#[test]
fn scenario_two_keys_then_empty() {
    let mut r = Relay::new();
    r.enqueue(Keys::Char('h'));
    r.enqueue(Keys::Char('i'));
    let sent = tick(&mut r, listing(&["dev1"]), Ok(true), true);
    assert_eq!(sent, Some(("dev1".to_string(), Keys::Char('h'))));
    assert_eq!(r.pending().len(), 1);
    let sent = tick(&mut r, listing(&["dev1"]), Ok(true), true);
    assert_eq!(sent, Some(("dev1".to_string(), Keys::Char('i'))));
    assert!(r.pending().is_empty());
    let sent = tick(&mut r, listing(&["dev1"]), Ok(true), true);
    assert_eq!(sent, None);
    assert!(r.is_ready());
}

#[test]
fn scenario_not_ready_accumulates() {
    let mut r = Relay::new();
    for c in ['a', 'b', 'c'] {
        r.enqueue(Keys::Char(c));
        assert_eq!(tick(&mut r, listing(&["dev1"]), Ok(false), true), None);
    }
    assert_eq!(r.pending().len(), 3);
    assert!(!r.is_ready());
}

#[test]
fn scenario_send_fails_then_succeeds() {
    let mut r = Relay::new();
    r.enqueue(Keys::Char('q'));
    r.enqueue(Keys::Char('r'));
    let sent = tick(&mut r, listing(&["dev1"]), Ok(true), false);
    assert_eq!(sent, Some(("dev1".to_string(), Keys::Char('q'))));
    assert_eq!(r.pending().len(), 2);
    assert_eq!(r.pending().peek(), Some(&Keys::Char('q')));
    let sent = tick(&mut r, listing(&["dev1"]), Ok(true), true);
    assert_eq!(sent, Some(("dev1".to_string(), Keys::Char('q'))));
    assert_eq!(r.pending().len(), 1);
    assert_eq!(r.pending().peek(), Some(&Keys::Char('r')));
}

#[test]
fn repeated_failures_retry_same_head() {
    let mut r = Relay::new();
    r.enqueue(Keys::Special(SpecialKey::Enter));
    r.enqueue(Keys::Char('z'));
    for _ in 0..5 {
        let sent = tick(&mut r, listing(&["dev1"]), Ok(true), false);
        assert_eq!(sent, Some(("dev1".to_string(), Keys::Special(SpecialKey::Enter))));
        assert_eq!(r.pending().len(), 2);
    }
}

#[test]
fn one_send_per_tick_with_long_queue() {
    let mut r = Relay::new();
    for c in "abcdefgh".chars() {
        r.enqueue(Keys::Char(c));
    }
    r.begin_tick();
    let mut sends = 0;
    let mut a = r.on_endpoints(listing(&["dev1"]));
    assert!(matches!(a, Action::QueryReadiness(_)));
    a = r.on_readiness(Ok(true));
    if is_send(&a) {
        sends += 1;
    }
    a = r.on_sent(Ok(()));
    if is_send(&a) {
        sends += 1;
    }
    // Stray outcomes after the tick ended ask for nothing.
    for b in [
        r.on_readiness(Ok(true)),
        r.on_sent(Ok(())),
        r.on_endpoints(listing(&["dev1"])),
    ] {
        if is_send(&b) {
            sends += 1;
        }
        assert!(matches!(b, Action::Idle));
    }
    assert_eq!(sends, 1);
    assert_eq!(r.pending().len(), 7);
}

#[test]
fn empty_listing_constructs_no_session() {
    let mut r = Relay::new();
    r.enqueue(Keys::Char('k'));
    r.begin_tick();
    assert!(matches!(r.on_endpoints(listing(&[])), Action::Idle));
    assert_eq!(r.phase(), Phase::Idle);
    assert!(!r.is_ready());
    assert!(matches!(r.on_readiness(Ok(true)), Action::Idle));
    assert_eq!(r.pending().len(), 1);
    assert!(r.endpoints().is_empty());
}

#[test]
fn listing_failure_counts_as_empty() {
    let mut r = Relay::new();
    r.enqueue(Keys::Char('k'));
    assert_eq!(tick(&mut r, listing(&["dev1"]), Ok(true), false).is_some(), true);
    assert!(r.is_ready());
    assert_eq!(tick(&mut r, Err(err()), Ok(true), true), None);
    assert!(!r.is_ready());
    assert!(r.endpoints().is_empty());
    assert_eq!(r.pending().len(), 1);
}

#[test]
fn readiness_failure_counts_as_not_ready() {
    let mut r = Relay::new();
    r.enqueue(Keys::Char('k'));
    assert_eq!(tick(&mut r, listing(&["dev1"]), Err(err()), true), None);
    assert!(!r.is_ready());
    assert_eq!(r.pending().len(), 1);
}

#[test]
fn selection_picks_endpoint_and_out_of_range_skips() {
    let mut r = Relay::new();
    r.enqueue(Keys::Char('m'));
    r.select(1);
    assert_eq!(r.selected(), 1);
    r.begin_tick();
    match r.on_endpoints(listing(&["a", "b"])) {
        Action::QueryReadiness(id) => assert_eq!(id, "b"),
        other => panic!("unexpected {:?}", other),
    }
    assert_eq!(r.endpoints(), &vec!["a".to_string(), "b".to_string()]);
    match r.on_readiness(Ok(true)) {
        Action::SendKey(id, k) => {
            assert_eq!(id, "b");
            assert_eq!(k, Keys::Char('m'));
        }
        other => panic!("unexpected {:?}", other),
    }
    r.on_sent(Err(err()));
    r.select(5);
    assert_eq!(tick(&mut r, listing(&["a", "b"]), Ok(true), true), None);
    assert_eq!(r.selected(), 5);
    assert_eq!(r.pending().len(), 1);
}

#[test]
fn input_is_buffered_whatever_the_readiness() {
    let mut r = Relay::new();
    assert!(!r.is_ready());
    r.on_char('a');
    r.on_special(SpecialKey::Backspace);
    assert_eq!(r.pending().len(), 2);
    assert_eq!(tick(&mut r, listing(&["dev1"]), Ok(false), true), None);
    r.on_char('b');
    assert_eq!(r.pending().len(), 3);
    let sent = tick(&mut r, listing(&["dev1"]), Ok(true), true);
    assert_eq!(sent, Some(("dev1".to_string(), Keys::Char('a'))));
    let sent = tick(&mut r, listing(&["dev1"]), Ok(true), true);
    assert_eq!(sent, Some(("dev1".to_string(), Keys::Special(SpecialKey::Backspace))));
    let sent = tick(&mut r, listing(&["dev1"]), Ok(true), true);
    assert_eq!(sent, Some(("dev1".to_string(), Keys::Char('b'))));
}

#[test]
fn only_printable_ascii_characters_are_buffered() {
    let mut r = Relay::new();
    r.on_char(' ');
    r.on_char('~');
    r.on_char('\n');
    r.on_char('\u{7f}');
    r.on_char('\u{1b}');
    r.on_char('é');
    assert_eq!(r.pending().len(), 2);
    assert_eq!(r.pending().peek(), Some(&Keys::Char(' ')));
}

#[test]
fn typed_characters_keep_their_order() {
    let mut r = Relay::new();
    r.enqueue(Keys::Special(SpecialKey::Up));
    for c in "abc".chars() {
        r.on_char(c);
    }
    let mut q = Vec::new();
    while let Some(k) = tick(&mut r, listing(&["dev1"]), Ok(true), true) {
        q.push(k.1);
    }
    assert_eq!(
        q,
        vec![
            Keys::Special(SpecialKey::Up),
            Keys::Char('a'),
            Keys::Char('b'),
            Keys::Char('c')
        ]
    );
}
