//! The chord matcher, fed concrete keystroke streams.

use scape_vh::input::{default_chords, Chord, Cmd, Matcher};

fn feed(matcher: &mut Matcher, keys: &str) -> Vec<Cmd> {
    let bindings = default_chords();
    let mut emitted = Vec::new();
    for key in keys.chars() {
        if let Some(cmd) = matcher.on_key(key, &bindings) {
            emitted.push(cmd);
        }
    }
    emitted
}

#[test]
fn chord_qq_emits_one_quit_and_returns_to_idle() {
    let mut matcher = Matcher::new();
    let emitted = feed(&mut matcher, "qq");
    assert_eq!(emitted, vec![Cmd::Quit]);
    assert!(matches!(matcher, Matcher::Idle));
}

#[test]
fn chord_qz_emits_nothing_and_returns_to_idle() {
    let mut matcher = Matcher::new();
    let emitted = feed(&mut matcher, "qz");
    assert_eq!(emitted, vec![]);
    assert!(matches!(matcher, Matcher::Idle));
}

#[test]
fn pending_state_does_not_persist_past_the_next_keystroke() {
    // after `q` then `z` the pending set is gone: a further `q` only
    // reopens it, emitting nothing
    let mut matcher = Matcher::new();
    let emitted = feed(&mut matcher, "qzq");
    assert_eq!(emitted, vec![]);
    assert!(matches!(matcher, Matcher::Pending(_)));
}

#[test]
fn chord_ak_and_single_k_agree_on_dir_up() {
    let mut via_chord = Matcher::new();
    let through_chord = feed(&mut via_chord, "ak");

    let mut via_single = Matcher::new();
    let through_single = feed(&mut via_single, "k");

    assert_eq!(through_chord, vec![Cmd::DirUp]);
    assert_eq!(through_single, vec![Cmd::DirUp]);
}

#[test]
fn fixed_single_keys_fire_immediately() {
    let mut matcher = Matcher::new();
    assert_eq!(feed(&mut matcher, "h"), vec![Cmd::DirOut]);
    assert_eq!(feed(&mut matcher, "j"), vec![Cmd::DirDown]);
    assert_eq!(feed(&mut matcher, "k"), vec![Cmd::DirUp]);
    assert_eq!(feed(&mut matcher, "l"), vec![Cmd::DirIn]);
    assert!(matches!(matcher, Matcher::Idle));
}

#[test]
fn single_key_leaves_a_pending_chord_untouched() {
    // `a` opens the `ak` candidate; `j` fires its own command without
    // consuming it; the next key still completes the chord branch
    let mut matcher = Matcher::new();
    let emitted = feed(&mut matcher, "aj");
    assert_eq!(emitted, vec![Cmd::DirDown]);
    assert!(matches!(matcher, Matcher::Pending(_)));
}

#[test]
fn unbound_key_from_idle_stays_idle() {
    let mut matcher = Matcher::new();
    let emitted = feed(&mut matcher, "z");
    assert_eq!(emitted, vec![]);
    assert!(matches!(matcher, Matcher::Idle));
}

#[test]
fn default_bindings_hold_qq_quit_and_ak_dir_up() {
    let bindings = default_chords();
    assert_eq!(bindings.len(), 2);
    assert_eq!(bindings[0], (Chord('q', 'q'), Cmd::Quit));
    assert_eq!(bindings[1], (Chord('a', 'k'), Cmd::DirUp));
}

#[test]
fn chord_equality_is_structural() {
    assert_eq!(Chord('a', 'b'), Chord('a', 'b'));
    assert_ne!(Chord('a', 'b'), Chord('a', 'c'));
    assert_ne!(Chord('a', 'b'), Chord('b', 'b'));
}
