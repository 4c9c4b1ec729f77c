//! The shared, lock-guarded table.

use intern_table::{State, Table};

#[test]
fn shared_table_interns_and_reads() {
    let table = State::instance();
    let s = table.intern("x".to_string());
    assert_eq!(table.read_text(s), Some("x".to_string()));
    assert_eq!(table.len(), 1);
}

#[test]
fn shared_table_deduplicates() {
    let table = Table::new();
    let a = table.intern("foo".to_string());
    let b = table.intern("foo".to_string());
    assert_eq!(a, b);
    assert_eq!(table.len(), 1);
}

#[test]
fn shared_default_symbol() {
    let table = Table::new();
    let d = table.default_symbol();
    let e = table.intern("".to_string());
    assert_eq!(d, e);
    assert_eq!(table.read_text(d), Some("".to_string()));
}

#[test]
fn foreign_symbol_is_refused() {
    let big = Table::new();
    big.intern("one".to_string());
    let beyond = big.intern("two".to_string());
    let small = Table::new();
    small.intern("one".to_string());
    assert_eq!(small.read_text(beyond), None);
}
