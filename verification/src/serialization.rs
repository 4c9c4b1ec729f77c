//! The serialization adapter's string-level contract.
//!
//! A symbol's encoded form is a plain string holding exactly the interned
//! text, and decoding re-interns that string through the normal
//! lookup-or-insert path, so values arriving from outside are deduplicated
//! against the same table as in-process construction.  Wiring this contract
//! into a concrete host format is the embedding program's part; decoding can
//! only fail there, in the host format, never here.

use vstd::prelude::*;

use crate::symbol::Symbol;
use crate::table::{distinct_contents, interned, State};

verus! {

/// Encode a symbol: its wire form is exactly the text of its entry.
pub fn encode(state: &State, s: Symbol) -> (r: String)
    requires
        s@ < state@.len(),
    ensures
        r@ == state@[s@],
{
    state.as_text(s).to_owned()
}

/// Decode a string into a symbol by re-interning it.
pub fn decode(state: &mut State, text: String) -> (s: Symbol)
    requires
        old(state).wf(),
    ensures
        final(state).wf(),
        interned(old(state)@, text@, final(state)@, s@),
{
    state.intern(text)
}

/// Round-trip: decoding the encoded form of a symbol — interning the text
/// the table already holds at that position — leaves the table untouched
/// and yields the same position back.
pub proof fn lemma_round_trip(s0: Seq<Seq<char>>, i: int, s1: Seq<Seq<char>>, j: int)
    requires
        distinct_contents(s0),
        0 <= i < s0.len(),
        interned(s0, s0[i], s1, j),
    ensures
        s1 =~= s0,
        j == i,
{
    assert(s0.contains(s0[i]));
    if i < j {
        assert(s0[i] != s0[j]);
    } else if j < i {
        assert(s0[j] != s0[i]);
    }
}

} // verus!
