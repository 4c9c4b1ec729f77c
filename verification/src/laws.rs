//! The laws of interning, proved over the table's model.
//!
//! The table's operations promise the relation [`interned`] between the
//! entries before a call, the content handed in, the entries after the call,
//! and the position returned.  The lemmas here state what that relation
//! guarantees across several calls: deduplication, determinism, growth-only
//! stability, and agreement between lock-serialized writers.

use vstd::prelude::*;

use crate::table::{distinct_contents, interned};

verus! {

/// One interning step as a function of the table's model: the table is left
/// alone when it already holds the content, and grows by that one entry
/// otherwise.
pub open spec fn intern_step(entries: Seq<Seq<char>>, c: Seq<char>) -> Seq<Seq<char>> {
    if entries.contains(c) {
        entries
    } else {
        entries.push(c)
    }
}

/// A whole run of interning calls, applied in order.
pub open spec fn intern_all(entries: Seq<Seq<char>>, cs: Seq<Seq<char>>) -> Seq<Seq<char>>
    decreases cs.len(),
{
    if cs.len() == 0 {
        entries
    } else {
        intern_all(intern_step(entries, cs[0]), cs.subrange(1, cs.len() as int))
    }
}

/// The [`interned`] relation performs exactly one [`intern_step`].
pub proof fn lemma_interned_is_step(
    pre: Seq<Seq<char>>,
    c: Seq<char>,
    post: Seq<Seq<char>>,
    i: int,
)
    requires
        interned(pre, c, post, i),
    ensures
        post =~= intern_step(pre, c),
{
}

/// Content fidelity: the entry a fresh symbol references holds exactly the
/// interned content — nothing is truncated or re-encoded on the way in.
pub proof fn lemma_content_fidelity(
    pre: Seq<Seq<char>>,
    c: Seq<char>,
    post: Seq<Seq<char>>,
    i: int,
)
    requires
        interned(pre, c, post, i),
    ensures
        post[i] == c,
{
}

/// Interning preserves strict deduplication: a table without repeated
/// contents never comes to hold the same content twice.
pub proof fn lemma_interned_distinct(
    pre: Seq<Seq<char>>,
    c: Seq<char>,
    post: Seq<Seq<char>>,
    i: int,
)
    requires
        distinct_contents(pre),
        interned(pre, c, post, i),
    ensures
        distinct_contents(post),
{
    if !pre.contains(c) {
        assert forall|p: int, q: int| 0 <= p < q < post.len() implies post[p] != post[q] by {
            if q == post.len() - 1 {
                if post[p] == post[q] {
                    assert(pre[p] == c);
                    assert(pre.contains(c));
                }
            } else {
                assert(post[p] == pre[p] && post[q] == pre[q]);
            }
        }
    }
}

/// Growth only: interning never disturbs an existing entry; every position
/// that was valid before keeps exactly its content.
pub proof fn lemma_interned_grows(pre: Seq<Seq<char>>, c: Seq<char>, post: Seq<Seq<char>>, i: int)
    requires
        interned(pre, c, post, i),
    ensures
        pre.len() <= post.len(),
        forall|k: int| 0 <= k < pre.len() ==> post[k] == pre[k],
{
}

/// Interning is deterministic: on one table, one content admits exactly one
/// outcome — there is no choice in which symbol comes back.
pub proof fn lemma_interned_deterministic(
    pre: Seq<Seq<char>>,
    c: Seq<char>,
    post1: Seq<Seq<char>>,
    i1: int,
    post2: Seq<Seq<char>>,
    i2: int,
)
    requires
        distinct_contents(pre),
        interned(pre, c, post1, i1),
        interned(pre, c, post2, i2),
    ensures
        post1 =~= post2,
        i1 == i2,
{
    if pre.contains(c) {
        if i1 < i2 {
            assert(pre[i1] != pre[i2]);
        } else if i2 < i1 {
            assert(pre[i2] != pre[i1]);
        }
    }
}

/// Deduplication: interning content that the table already holds — in
/// particular, interning the same content a second time — returns the
/// position of the existing entry and leaves the table untouched.
pub proof fn lemma_intern_deduplicates(
    s0: Seq<Seq<char>>,
    c: Seq<char>,
    s1: Seq<Seq<char>>,
    i1: int,
    s2: Seq<Seq<char>>,
    i2: int,
)
    requires
        distinct_contents(s0),
        interned(s0, c, s1, i1),
        interned(s1, c, s2, i2),
    ensures
        s2 =~= s1,
        i2 == i1,
{
    lemma_interned_distinct(s0, c, s1, i1);
    assert(s1.contains(c));
    if i1 < i2 {
        assert(s1[i1] != s1[i2]);
    } else if i2 < i1 {
        assert(s1[i2] != s1[i1]);
    }
}

/// Default identity: the default symbol is obtained by interning the empty
/// string, so on one table the default path and an explicit interning of
/// the empty string yield the same symbol and the same resulting table.
pub proof fn lemma_default_is_intern_empty(
    pre: Seq<Seq<char>>,
    post_d: Seq<Seq<char>>,
    i_d: int,
    post_e: Seq<Seq<char>>,
    i_e: int,
)
    requires
        distinct_contents(pre),
        interned(pre, Seq::<char>::empty(), post_d, i_d),
        interned(pre, Seq::<char>::empty(), post_e, i_e),
    ensures
        post_d =~= post_e,
        i_d == i_e,
{
    lemma_interned_deterministic(pre, Seq::<char>::empty(), post_d, i_d, post_e, i_e);
}

/// Stability under growth: however many interning calls follow, of whatever
/// contents, every entry that existed before keeps its position and its
/// content.
pub proof fn lemma_stability_under_growth(entries: Seq<Seq<char>>, cs: Seq<Seq<char>>, k: int)
    requires
        0 <= k < entries.len(),
    ensures
        entries.len() <= intern_all(entries, cs).len(),
        intern_all(entries, cs)[k] == entries[k],
    decreases cs.len(),
{
    if cs.len() != 0 {
        lemma_stability_under_growth(intern_step(entries, cs[0]), cs.subrange(1, cs.len() as int), k);
    }
}

/// Lock-serialized repetition: the writer lock serializes concurrent
/// interning calls into some order, and however many times the same content
/// is interned in a row, the table changes exactly as one call changes it —
/// the entry count grows by one when the content was new, and by nothing
/// otherwise.
pub proof fn lemma_repeated_intern_inserts_once(entries: Seq<Seq<char>>, c: Seq<char>, n: nat)
    requires
        n >= 1,
    ensures
        intern_all(entries, Seq::new(n, |k: int| c)) =~= intern_step(entries, c),
        entries.contains(c) ==> intern_step(entries, c).len() == entries.len(),
        !entries.contains(c) ==> intern_step(entries, c).len() == entries.len() + 1,
    decreases n,
{
    let cs = Seq::new(n, |k: int| c);
    let stepped = intern_step(entries, c);
    assert(cs[0] == c);
    assert(intern_all(entries, cs) == intern_all(stepped, cs.subrange(1, n as int)));
    if n == 1 {
        assert(cs.subrange(1, 1) =~= Seq::<Seq<char>>::empty());
        assert(intern_all(stepped, cs.subrange(1, 1)) == stepped);
    } else {
        let rest = Seq::new((n - 1) as nat, |k: int| c);
        assert(cs.subrange(1, n as int) =~= rest);
        if !entries.contains(c) {
            assert(stepped[entries.len() as int] == c);
        }
        assert(stepped.contains(c));
        lemma_repeated_intern_inserts_once(stepped, c, (n - 1) as nat);
        assert(intern_all(stepped, rest) =~= intern_step(stepped, c));
        assert(intern_step(stepped, c) == stepped);
    }
}

/// Agreement between observers: when one table extends another without
/// disturbing it — as the growth-only table does — any two symbols found to
/// hold the same content reference the same position.  All threads that
/// intern one content therefore observe equal symbols.
pub proof fn lemma_symbol_agreement(
    small: Seq<Seq<char>>,
    big: Seq<Seq<char>>,
    i: int,
    j: int,
)
    requires
        distinct_contents(big),
        small.len() <= big.len(),
        forall|k: int| 0 <= k < small.len() ==> big[k] == small[k],
        0 <= i < small.len(),
        0 <= j < big.len(),
        small[i] == big[j],
    ensures
        i == j,
{
    assert(big[i] == small[i]);
    if i < j {
        assert(big[i] != big[j]);
    } else if j < i {
        assert(big[j] != big[i]);
    }
}

} // verus!
