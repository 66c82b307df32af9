//! Parsing keystroke tokens and simulating composed input.

use testkit::app::TestAppContext;
use testkit::input::InputEvent;
use testkit::keystroke::{parse_keystroke_sequence, Keystroke};
use testkit::scheduler::TestDispatcher;

fn fresh_cx() -> TestAppContext {
    TestAppContext::new(TestDispatcher::new(), Some("keystroke_tests".to_string()))
}

#[test]
fn parses_plain_key() {
    let k = Keystroke::parse("escape").unwrap();
    assert_eq!(k.key, "escape");
    assert!(!k.modifiers.control);
    assert!(!k.modifiers.alt);
    assert!(!k.modifiers.shift);
    assert!(!k.modifiers.platform);
    assert!(!k.modifiers.function);
}

#[test]
fn parses_modifier_chords() {
    let k = Keystroke::parse("cmd-shift-p").unwrap();
    assert_eq!(k.key, "p");
    assert!(k.modifiers.platform);
    assert!(k.modifiers.shift);
    assert!(!k.modifiers.control);

    let k = Keystroke::parse("ctrl-alt-fn-x").unwrap();
    assert_eq!(k.key, "x");
    assert!(k.modifiers.control);
    assert!(k.modifiers.alt);
    assert!(k.modifiers.function);

    let k = Keystroke::parse("super-a").unwrap();
    assert!(k.modifiers.platform);
    let k = Keystroke::parse("win-a").unwrap();
    assert!(k.modifiers.platform);
}

#[test]
fn parses_dash_keys() {
    let k = Keystroke::parse("-").unwrap();
    assert_eq!(k.key, "-");

    let k = Keystroke::parse("ctrl--").unwrap();
    assert_eq!(k.key, "-");
    assert!(k.modifiers.control);
}

#[test]
fn rejects_malformed_tokens() {
    // An empty token.
    assert!(Keystroke::parse("").is_err());
    // A modifier with no key.
    assert!(Keystroke::parse("shift").is_err());
    assert!(Keystroke::parse("ctrl-shift").is_err());
    // An unknown modifier before the key.
    assert!(Keystroke::parse("a-b").is_err());
    // An empty segment.
    assert!(Keystroke::parse("-a").is_err());
    assert!(Keystroke::parse("cmd-").is_err());
}

#[test]
fn parses_token_sequences_in_order() {
    let ks = parse_keystroke_sequence("cmd-p escape").unwrap();
    assert_eq!(ks.len(), 2);
    assert_eq!(ks[0].key, "p");
    assert!(ks[0].modifiers.platform);
    assert_eq!(ks[1].key, "escape");
    assert!(!ks[1].modifiers.platform);
}

#[test]
fn rejects_sequences_with_a_malformed_token() {
    assert!(parse_keystroke_sequence("cmd-p bogus-key").is_err());
    // A doubled space makes an empty token.
    assert!(parse_keystroke_sequence("a  b").is_err());
    assert!(parse_keystroke_sequence("").is_err());
}

/// Simulating `cmd-p escape` dispatches exactly two primitives, in the
/// order written, and drains the scheduler exactly once afterwards.
#[test]
fn simulate_keystrokes_dispatches_in_order_with_one_drain() {
    let mut cx = fresh_cx();
    let w = cx.add_window(0);
    let drains_before = cx.executor().drain_count();

    cx.simulate_keystrokes(w, "cmd-p escape");

    let window = cx.test_window(w);
    assert_eq!(window.input_log.len(), 2);
    match &window.input_log[0] {
        InputEvent::KeyDown { keystroke } => {
            assert_eq!(keystroke.key, "p");
            assert!(keystroke.modifiers.platform);
        },
        _ => panic!("expected a key-down"),
    }
    match &window.input_log[1] {
        InputEvent::KeyDown { keystroke } => {
            assert_eq!(keystroke.key, "escape");
            assert!(!keystroke.modifiers.platform);
        },
        _ => panic!("expected a key-down"),
    }
    assert_eq!(cx.executor().drain_count(), drains_before + 1);
}

/// Typing text dispatches one key-down per character, then one drain.
#[test]
fn simulate_input_types_character_by_character() {
    let mut cx = fresh_cx();
    let w = cx.add_window(0);
    let drains_before = cx.executor().drain_count();

    cx.simulate_input(w, "abc");

    let window = cx.test_window(w);
    assert_eq!(window.input_log.len(), 3);
    let keys: Vec<String> = window
        .input_log
        .iter()
        .map(|e| match e {
            InputEvent::KeyDown { keystroke } => keystroke.key.clone(),
            _ => panic!("expected a key-down"),
        })
        .collect();
    assert_eq!(keys, vec!["a", "b", "c"]);
    assert_eq!(cx.executor().drain_count(), drains_before + 1);
}

/// A single dispatched keystroke does not drain by itself.
#[test]
fn dispatch_keystroke_does_not_drain() {
    let mut cx = fresh_cx();
    let w = cx.add_window(0);
    let drains_before = cx.executor().drain_count();
    let k = Keystroke::parse("enter").unwrap();
    cx.dispatch_keystroke(w, k);
    assert_eq!(cx.executor().drain_count(), drains_before);
    assert_eq!(cx.test_window(w).input_log.len(), 1);
}
