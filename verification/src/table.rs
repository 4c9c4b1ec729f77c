//! The interning table: an append-only store of unique string contents.

use vstd::prelude::*;

use crate::symbol::Symbol;

verus! {

/// No two entries of the table hold the same content: the table's
/// strict-deduplication invariant.
pub open spec fn distinct_contents(entries: Seq<Seq<char>>) -> bool {
    forall|i: int, j: int| 0 <= i < j < entries.len() ==> entries[i] != entries[j]
}

/// The lookup-or-insert relation: `post` and the returned position `i` are
/// what interning content `c` into table `pre` must yield.
///
/// The returned position always holds `c`.  If `pre` already has an entry
/// with content `c`, the table is left untouched; otherwise exactly one new
/// entry with content `c` is appended at the end.  Under
/// [`distinct_contents`] this pins `i` down completely: it is the one
/// position of `post` whose content is `c`.
pub open spec fn interned(pre: Seq<Seq<char>>, c: Seq<char>, post: Seq<Seq<char>>, i: int) -> bool {
    &&& 0 <= i < post.len()
    &&& post[i] == c
    &&& if pre.contains(c) {
        post =~= pre
    } else {
        post =~= pre.push(c) && i == pre.len()
    }
}

/// The interning table: the entries, in the order they were first interned.
///
/// Entries are only ever appended, never removed, moved or mutated, so a
/// position handed out once refers to the same content for as long as the
/// table lives.  Lookup probes the entries in order.  Nothing is ever
/// released: the table trades unbounded growth for stable handles, which
/// suits long-lived, identifier-scale contents, not arbitrary
/// high-cardinality input.
pub struct State {
    values: Vec<String>,
}

impl View for State {
    type V = Seq<Seq<char>>;

    closed spec fn view(&self) -> Seq<Seq<char>> {
        self.values@.map_values(|s: String| s@)
    }
}

impl State {
    /// The table is well formed when no content is stored twice.
    pub open spec fn wf(&self) -> bool {
        distinct_contents(self@)
    }

    /// An empty table: the state every interning table starts from.
    pub fn new() -> (state: State)
        ensures
            state@ =~= Seq::<Seq<char>>::empty(),
            state.wf(),
    {
        State { values: Vec::new() }
    }

    /// The number of entries interned so far.
    pub fn len(&self) -> (n: usize)
        ensures
            n == self@.len(),
    {
        self.values.len()
    }

    /// Look the content up; if it is already stored, return the symbol of the
    /// existing entry, otherwise append a new entry and return its symbol.
    ///
    /// This is the only write path into the table and the only way a
    /// [`Symbol`] comes to be.
    pub fn intern(&mut self, value: String) -> (s: Symbol)
        requires
            old(self).wf(),
        ensures
            final(self).wf(),
            interned(old(self)@, value@, final(self)@, s@),
    {
        let n: usize = self.values.len();
        let mut i: usize = 0;
        while i < n
            invariant
                *self == *old(self),
                old(self).wf(),
                n == self.values.len(),
                i <= n,
                forall|j: int| 0 <= j < i ==> self@[j] != value@,
            decreases n - i,
        {
            if self.values[i] == value {
                proof {
                    assert(self@[i as int] == value@);
                    assert(self@.contains(value@));
                }
                return Symbol::from_index(i);
            }
            i += 1;
        }
        proof {
            assert(forall|j: int| 0 <= j < self@.len() ==> self@[j] != value@);
            assert(!self@.contains(value@));
        }
        self.values.push(value);
        proof {
            assert(self@ =~= old(self)@.push(value@));
            assert forall|p: int, q: int| 0 <= p < q < self@.len() implies self@[p] != self@[q] by {
                if q == self@.len() - 1 {
                    assert(self@[p] == old(self)@[p]);
                }
            }
        }
        Symbol::from_index(n)
    }

    /// Intern borrowed text: the same lookup-or-insert path, reached from a
    /// `&str` instead of an owned `String`.
    pub fn intern_str(&mut self, value: &str) -> (s: Symbol)
        requires
            old(self).wf(),
        ensures
            final(self).wf(),
            interned(old(self)@, value@, final(self)@, s@),
    {
        self.intern(value.to_owned())
    }

    /// Intern the empty string: the default symbol comes from the same
    /// deduplicating path as every other symbol.
    pub fn default_symbol(&mut self) -> (s: Symbol)
        requires
            old(self).wf(),
        ensures
            final(self).wf(),
            interned(old(self)@, Seq::<char>::empty(), final(self)@, s@),
    {
        self.intern(String::new())
    }

    /// The read path: the content of the entry a symbol references.
    pub fn as_text(&self, s: Symbol) -> (r: &str)
        requires
            s@ < self@.len(),
        ensures
            r@ == self@[s@],
    {
        self.values[s.index()].as_str()
    }
}

impl Default for State {
    /// The default table is the empty table.
    fn default() -> (state: State)
        ensures
            state@ =~= Seq::<Seq<char>>::empty(),
            state.wf(),
    {
        State::new()
    }
}

} // verus!
