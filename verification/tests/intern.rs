//! The interning table, exercised through its public surface.

use intern_table::serialization::{decode, encode};
use intern_table::{State, Symbol};

#[test]
fn dedup_owned_and_borrowed() {
    let mut state = State::new();
    let a = state.intern("foo".to_string());
    let b = state.intern_str("foo");
    let c = state.intern("foo".to_string());
    assert_eq!(a, b);
    assert_eq!(b, c);
    assert_eq!(state.len(), 1);
}

#[test]
fn content_fidelity() {
    let mut state = State::new();
    let inputs = ["", "a", "foo", "h\u{e9}llo \u{2200} world", "line\nbreak\ttab"];
    let mut symbols = Vec::new();
    for input in inputs.iter() {
        symbols.push(state.intern_str(input));
    }
    for (input, symbol) in inputs.iter().zip(symbols.iter()) {
        assert_eq!(state.as_text(*symbol), *input);
    }
}

#[test]
fn default_identity() {
    let mut state = State::default();
    let d = state.default_symbol();
    let e = state.intern("".to_string());
    assert_eq!(d, e);
    assert_eq!(state.as_text(d), "");
    assert_eq!(state.len(), 1);
}

#[test]
fn stability_under_growth() {
    let mut state = State::new();
    let first = state.intern("a".to_string());
    for i in 0..10_000 {
        state.intern(format!("entry-{}", i));
    }
    assert_eq!(state.as_text(first), "a");
    assert_eq!(first, state.intern("a".to_string()));
    assert_eq!(state.len(), 10_001);
}

#[test]
fn round_trip() {
    let mut state = State::new();
    state.intern("other".to_string());
    let x = state.intern("bar".to_string());
    let len_before = state.len();
    let wire = encode(&state, x);
    assert_eq!(wire, "bar");
    let y = decode(&mut state, wire);
    assert_eq!(y, x);
    assert_eq!(state.len(), len_before);
}

#[test]
fn repeated_interning_adds_one_entry() {
    let mut state = State::new();
    state.intern("already there".to_string());
    let len_before = state.len();
    let reference = state.intern("c".to_string());
    for _ in 0..8 {
        assert_eq!(state.intern("c".to_string()), reference);
    }
    assert_eq!(state.len(), len_before + 1);
}

#[test]
fn text_of_interned() {
    let mut state = State::new();
    let s = state.intern("foo".to_string());
    assert_eq!(state.as_text(s), "foo");
}

#[test]
fn equality_follows_content() {
    let mut state = State::new();
    let a1 = state.intern("a".to_string());
    let b = state.intern("b".to_string());
    let a2 = state.intern("a".to_string());
    assert_ne!(a1, b);
    assert_eq!(a1, a2);
}

#[test]
fn symbol_new_is_interning() {
    let mut state = State::new();
    let a = Symbol::new(&mut state, "name".to_string());
    let b = state.intern("name".to_string());
    assert_eq!(a, b);
    assert_eq!(state.as_text(a), "name");
    assert_eq!(a.index(), 0);
}
