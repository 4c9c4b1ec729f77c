//! The shared table: one [`State`] behind a single reader-writer lock.

use vstd::prelude::*;
use vstd::rwlock::{RwLock, RwLockPredicate};

use crate::symbol::Symbol;
use crate::table::{interned, State};

verus! {

/// The lock's predicate: only well-formed — strictly deduplicated — states
/// may ever be stored in the shared table.
pub struct Dedup;

impl RwLockPredicate<State> for Dedup {
    open spec fn inv(self, v: State) -> bool {
        v.wf()
    }
}

/// A shared interning table, guarded by a single reader-writer lock.
///
/// Reading a symbol's text takes the lock for reading, so many readers may
/// run at once; interning takes it for writing, so concurrent interning
/// calls are serialized into some order of [`State::intern`] steps.  The
/// lock's invariant keeps every state the table ever holds strictly
/// deduplicated, and the laws of [`crate::laws`] apply to the serialized
/// order: all threads interning one content observe equal symbols, and all
/// of them together grow the table by at most one entry.
pub struct Table {
    lock: RwLock<State, Dedup>,
}

impl Table {
    /// Which states this table may hold: exactly the well-formed ones.
    pub closed spec fn inv(&self, state: State) -> bool {
        self.lock.inv(state)
    }

    /// Create an empty shared table.
    pub fn new() -> (t: Table)
        ensures
            forall|state: State| t.inv(state) <==> state.wf(),
    {
        Table { lock: RwLock::new(State::new(), Ghost(Dedup)) }
    }

    /// Intern a value: serialize behind the writer lock and run the
    /// lookup-or-insert path on the guarded state.
    ///
    /// The lock hides which state a call finds, so all that can be promised
    /// of the returned symbol is its provenance: it came out of one
    /// [`interned`] step between well-formed states of this table.  What
    /// that step does to the state it found is exactly [`State::intern`]'s
    /// contract.
    pub fn intern(&self, value: String) -> (s: Symbol)
        ensures
            exists|pre: State, post: State|
                self.inv(pre) && self.inv(post) && interned(pre@, value@, post@, s@),
    {
        let (mut state, handle) = self.lock.acquire_write();
        let ghost pre = state;
        let s = state.intern(value);
        proof {
            assert(self.inv(pre) && self.inv(state) && interned(pre@, value@, state@, s@));
        }
        handle.release_write(state);
        s
    }

    /// Intern the empty string: the default symbol, from the same
    /// deduplicating path as every other symbol.
    pub fn default_symbol(&self) -> (s: Symbol)
        ensures
            exists|pre: State, post: State|
                self.inv(pre) && self.inv(post) && interned(
                    pre@,
                    Seq::<char>::empty(),
                    post@,
                    s@,
                ),
    {
        let (mut state, handle) = self.lock.acquire_write();
        let ghost pre = state;
        let s = state.default_symbol();
        proof {
            assert(self.inv(pre) && self.inv(state) && interned(
                pre@,
                Seq::<char>::empty(),
                state@,
                s@,
            ));
        }
        handle.release_write(state);
        s
    }

    /// Read the text a symbol references, as an owned copy, behind the
    /// reader lock; `None` when the position lies beyond this table's
    /// entries (the symbol of some other table).
    pub fn read_text(&self, s: Symbol) -> (r: Option<String>)
        ensures
            (r matches Some(t) ==> exists|st: State|
                self.inv(st) && s@ < st@.len() && t@ == st@[s@]),
    {
        let handle = self.lock.acquire_read();
        let state = handle.borrow();
        let r = if s.index() < state.len() {
            let t = state.as_text(s).to_owned();
            proof {
                assert(self.inv(*state) && s@ < state@.len() && t@ == state@[s@]);
            }
            Some(t)
        } else {
            None
        };
        handle.release_read();
        r
    }

    /// The number of entries interned so far, behind the reader lock.
    pub fn len(&self) -> usize {
        let handle = self.lock.acquire_read();
        let n = handle.borrow().len();
        handle.release_read();
        n
    }
}

impl State {
    /// Create the guarded table instance that a process shares: an empty
    /// state behind its reader-writer lock.  Keeping exactly one instance
    /// per process — the lazily initialized global — is the embedding
    /// program's part, since a global lives outside this crate.
    pub fn instance() -> (t: Table)
        ensures
            forall|state: State| t.inv(state) <==> state.wf(),
    {
        Table::new()
    }
}

} // verus!
