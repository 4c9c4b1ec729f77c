//! The copyable handle that identifies one interned string.

use vstd::prelude::*;

use crate::table::{interned, State};

verus! {

/// A symbol: a handle referencing exactly one entry of an interning table.
///
/// A symbol holds the position of its entry in the table's append-only
/// sequence of entries.  The table only grows and never moves an entry, so a
/// symbol stays valid for as long as its table lives.  Two symbols obtained
/// from the same table are equal exactly when they reference the same entry,
/// which by the table's strict-deduplication invariant is exactly when their
/// contents are equal.
#[derive(Clone, Copy, Debug, Hash, PartialEq, Eq, Structural)]
pub struct Symbol(pub(crate) usize);

impl View for Symbol {
    type V = int;

    closed spec fn view(&self) -> int {
        self.0 as int
    }
}

impl Symbol {
    /// Create a new instance: intern the value into the given table.
    ///
    /// Interning is the sole constructor of symbols, so every symbol
    /// references an entry of the table it was interned into.
    pub fn new(state: &mut State, value: String) -> (s: Symbol)
        requires
            old(state).wf(),
        ensures
            final(state).wf(),
            interned(old(state)@, value@, final(state)@, s@),
    {
        state.intern(value)
    }

    /// The position this symbol references, as an executable value.
    pub fn index(&self) -> (i: usize)
        ensures
            i as int == self@,
    {
        self.0
    }

    /// Wrap a table position; only the table itself hands positions out.
    pub(crate) fn from_index(i: usize) -> (s: Symbol)
        ensures
            s@ == i as int,
    {
        Symbol(i)
    }
}

/// Symbol equality is index equality: two symbols are `==` exactly when they
/// reference the same table position.
pub proof fn lemma_symbol_eq(a: Symbol, b: Symbol)
    ensures
        (a == b) <==> (a@ == b@),
{
}

} // verus!
