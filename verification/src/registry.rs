//! The registry of live peer connections: a map from peer id to an open
//! connection handle, with superseding insert, removal, and a snapshot for
//! iteration. The handle type is a parameter: the transport keeps whatever
//! the surrounding runtime uses for a socket, and never looks inside it.
//!
//! The registry itself is sequential; the caller guards it with a lock and
//! keeps every critical section to one operation, so the state after any
//! concurrent history equals some sequential interleaving of these
//! operations.

use vstd::prelude::*;

verus! {

/// Some entry carries `id`.
pub open spec fn has_id<C>(s: Seq<(Seq<char>, C)>, id: Seq<char>) -> bool {
    exists|i: int| 0 <= i < s.len() && s[i].0 == id
}

/// No two entries share an id.
pub open spec fn unique_ids<C>(s: Seq<(Seq<char>, C)>) -> bool {
    forall|i: int, j: int| 0 <= i < j < s.len() ==> s[i].0 != s[j].0
}

/// The entries that carry `id`.
pub open spec fn entries_for<C>(s: Seq<(Seq<char>, C)>, id: Seq<char>) -> Seq<(Seq<char>, C)> {
    s.filter(|p: (Seq<char>, C)| p.0 == id)
}

/// The entries with `id` taken out.
pub open spec fn spec_remove<C>(s: Seq<(Seq<char>, C)>, id: Seq<char>) -> Seq<(Seq<char>, C)> {
    s.filter(|p: (Seq<char>, C)| p.0 != id)
}

/// The entries after a superseding insert of `id`: any prior entry under
/// `id` is gone, and the new binding stands last.
pub open spec fn spec_insert<C>(s: Seq<(Seq<char>, C)>, id: Seq<char>, c: C) -> Seq<
    (Seq<char>, C),
> {
    spec_remove(s, id).push((id, c))
}

/// The entries whose ids are not among `ids`.
pub open spec fn spec_remove_all<C>(s: Seq<(Seq<char>, C)>, ids: Seq<Seq<char>>) -> Seq<
    (Seq<char>, C),
> {
    s.filter(|p: (Seq<char>, C)| !ids.contains(p.0))
}

/// The mathematical value of a vector of entries.
pub open spec fn entries_view<C>(es: Seq<(String, C)>) -> Seq<(Seq<char>, C)> {
    es.map_values(|p: (String, C)| (p.0@, p.1))
}

/// The ids of a vector of strings.
pub open spec fn str_ids(s: Seq<String>) -> Seq<Seq<char>> {
    s.map_values(|x: String| x@)
}

/// A filter of a one-element sequence keeps or drops that element.
proof fn lemma_filter_singleton<A>(e: A, pred: spec_fn(A) -> bool)
    ensures
        seq![e].filter(pred) == if pred(e) {
            seq![e]
        } else {
            Seq::<A>::empty()
        },
{
    reveal_with_fuel(Seq::filter, 3);
    assert(seq![e].drop_last() =~= Seq::<A>::empty());
    assert(seq![e].last() == e);
    if pred(e) {
        assert(Seq::<A>::empty().push(e) =~= seq![e]);
    }
}

/// A filter of a push keeps or drops the pushed element.
broadcast proof fn lemma_filter_push<A>(s: Seq<A>, e: A, pred: spec_fn(A) -> bool)
    ensures
        #[trigger] s.push(e).filter(pred) == if pred(e) {
            s.filter(pred).push(e)
        } else {
            s.filter(pred)
        },
{
    reveal(Seq::filter);
    assert(s.push(e).drop_last() =~= s);
    assert(s.push(e).last() == e);
}

/// A filter keeps a sequence whose every element satisfies the predicate.
broadcast proof fn lemma_filter_all<A>(s: Seq<A>, pred: spec_fn(A) -> bool)
    requires
        forall|i: int| 0 <= i < s.len() ==> pred(#[trigger] s[i]),
    ensures
        #[trigger] s.filter(pred) == s,
    decreases s.len(),
{
    reveal(Seq::filter);
    if s.len() > 0 {
        let t = s.drop_last();
        assert(forall|i: int| 0 <= i < t.len() ==> pred(#[trigger] t[i]));
        lemma_filter_all(t, pred);
        assert(s.filter(pred) =~= s);
    }
}

/// A filter drops a sequence whose no element satisfies the predicate.
broadcast proof fn lemma_filter_none<A>(s: Seq<A>, pred: spec_fn(A) -> bool)
    requires
        forall|i: int| 0 <= i < s.len() ==> !pred(#[trigger] s[i]),
    ensures
        #[trigger] s.filter(pred) == Seq::<A>::empty(),
    decreases s.len(),
{
    reveal(Seq::filter);
    if s.len() > 0 {
        let t = s.drop_last();
        assert(forall|i: int| 0 <= i < t.len() ==> !pred(#[trigger] t[i]));
        lemma_filter_none(t, pred);
    }
}

/// Filtering entries with unique ids keeps them unique and invents no id.
proof fn lemma_filter_entries<C>(v: Seq<(Seq<char>, C)>, pred: spec_fn((Seq<char>, C)) -> bool)
    requires
        unique_ids(v),
    ensures
        unique_ids(v.filter(pred)),
        forall|id: Seq<char>| #[trigger] has_id(v.filter(pred), id) ==> has_id(v, id),
    decreases v.len(),
{
    reveal(Seq::filter);
    if v.len() > 0 {
        let t = v.drop_last();
        let ft = t.filter(pred);
        assert(unique_ids(t)) by {
            assert(forall|i: int| 0 <= i < t.len() ==> t[i] == v[i]);
        }
        lemma_filter_entries(t, pred);
        assert forall|id: Seq<char>| #[trigger] has_id(t, id) implies has_id(v, id) by {
            let i = choose|i: int| 0 <= i < t.len() && t[i].0 == id;
            assert(v[i].0 == id);
        }
        if pred(v.last()) {
            let fv = ft.push(v.last());
            assert(v.filter(pred) == fv);
            assert forall|i: int, j: int| 0 <= i < j < fv.len() implies fv[i].0 != fv[j].0 by {
                if j == fv.len() - 1 {
                    assert(has_id(ft, fv[i].0));
                    let k = choose|k: int| 0 <= k < t.len() && t[k].0 == fv[i].0;
                    assert(v[k].0 == fv[i].0);
                    assert(v[k].0 != v[v.len() - 1].0);
                }
            }
            assert forall|id: Seq<char>| #[trigger] has_id(fv, id) implies has_id(v, id) by {
                let i = choose|i: int| 0 <= i < fv.len() && fv[i].0 == id;
                if i == fv.len() - 1 {
                    assert(v[v.len() - 1].0 == id);
                } else {
                    assert(has_id(ft, id));
                }
            }
        }
    }
}

/// The registry of live peers: each entry binds a peer id to its open
/// connection handle; ids are unique at any instant.
pub struct PeerRegistry<C> {
    entries: Vec<(String, C)>,
}

impl<C> View for PeerRegistry<C> {
    type V = Seq<(Seq<char>, C)>;

    closed spec fn view(&self) -> Seq<(Seq<char>, C)> {
        entries_view(self.entries@)
    }
}

impl<C> PeerRegistry<C> {
    /// The registry's ids are unique.
    pub open spec fn wf(&self) -> bool {
        unique_ids(self@)
    }

    /// An empty registry.
    pub fn new() -> (r: PeerRegistry<C>)
        ensures
            r@ == Seq::<(Seq<char>, C)>::empty(),
            r.wf(),
    {
        let r = PeerRegistry { entries: Vec::new() };
        assert(r@ =~= Seq::<(Seq<char>, C)>::empty());
        r
    }

    /// How many peers are registered.
    pub fn count(&self) -> (n: usize)
        ensures
            n == self@.len(),
    {
        self.entries.len()
    }

    /// The current entries, in registration order, for iteration outside
    /// the registry's lock.
    pub fn snapshot(&self) -> (r: &Vec<(String, C)>)
        ensures
            entries_view(r@) == self@,
    {
        &self.entries
    }

    /// Drops every peer at once; only shutdown uses this.
    pub fn clear(&mut self)
        ensures
            final(self)@ == Seq::<(Seq<char>, C)>::empty(),
            final(self).wf(),
    {
        self.entries.clear();
        assert(final(self)@ =~= Seq::<(Seq<char>, C)>::empty());
    }

    /// Removes every peer whose id is in `failed`: the broadcast path
    /// collects unwritable peers and sweeps them out in one call.
    pub fn remove_failed(&mut self, failed: &Vec<String>)
        requires
            old(self).wf(),
        ensures
            final(self)@ == spec_remove_all(old(self)@, str_ids(failed@)),
            final(self).wf(),
    {
        let ghost orig = self@;
        let ghost pred = |p: (Seq<char>, C)| !str_ids(failed@).contains(p.0);
        let mut kept: Vec<(String, C)> = Vec::new();
        let ghost mut processed: Seq<(Seq<char>, C)> = Seq::empty();
        proof {
            assert(orig =~= processed + entries_view(self.entries@));
            assert(processed.filter(pred) =~= Seq::<(Seq<char>, C)>::empty()) by {
                reveal(Seq::filter);
            }
            assert(entries_view(kept@) =~= Seq::<(Seq<char>, C)>::empty());
        }
        while self.entries.len() > 0
            invariant
                orig == processed + entries_view(self.entries@),
                entries_view(kept@) == processed.filter(pred),
                pred == (|p: (Seq<char>, C)| !str_ids(failed@).contains(p.0)),
            decreases self.entries.len(),
        {
            let ghost pre_entries = self.entries@;
            let ghost pre_processed = processed;
            let e = self.entries.remove(0);
            let ghost ev = (e.0@, e.1);
            let keep = !contains_string(failed, &e.0);
            proof {
                processed = processed.push(ev);
                assert(entries_view(pre_entries) =~= seq![ev] + entries_view(self.entries@));
                assert(pre_processed + (seq![ev] + entries_view(self.entries@)) =~= (
                pre_processed.push(ev)) + entries_view(self.entries@));
                assert(processed =~= pre_processed + seq![ev]);
                Seq::filter_distributes_over_add(pre_processed, seq![ev], pred);
                lemma_filter_singleton(ev, pred);
                if keep {
                    assert(processed.filter(pred) =~= pre_processed.filter(pred).push(ev)) by {
                        assert(pre_processed.filter(pred) + seq![ev] =~= pre_processed.filter(
                            pred,
                        ).push(ev));
                    }
                } else {
                    assert(processed.filter(pred) =~= pre_processed.filter(pred)) by {
                        assert(pre_processed.filter(pred) + Seq::<(Seq<char>, C)>::empty()
                            =~= pre_processed.filter(pred));
                    }
                }
            }
            if keep {
                let ghost pre_kept = kept@;
                kept.push(e);
                proof {
                    assert(entries_view(kept@) =~= entries_view(pre_kept).push(ev));
                }
            }
        }
        proof {
            assert(entries_view(self.entries@) =~= Seq::<(Seq<char>, C)>::empty());
            assert(orig =~= processed);
        }
        self.entries = kept;
        proof {
            lemma_filter_entries(orig, pred);
        }
    }

    /// Removes the peer under `id`; without such a peer the registry is
    /// unchanged.
    pub fn remove(&mut self, id: &String)
        requires
            old(self).wf(),
        ensures
            final(self)@ == spec_remove(old(self)@, id@),
            final(self).wf(),
    {
        let single = vec![id.clone()];
        self.remove_failed(&single);
        proof {
            let p_all = |p: (Seq<char>, C)| !str_ids(single@).contains(p.0);
            let p_one = |p: (Seq<char>, C)| p.0 != id@;
            assert(str_ids(single@) =~= seq![id@]);
            assert forall|p: (Seq<char>, C)| #[trigger] p_all(p) == p_one(p) by {
                if seq![id@].contains(p.0) {
                    assert(p.0 == id@);
                }
                if p.0 == id@ {
                    assert(seq![id@][0] == p.0);
                }
            }
            assert(p_all =~= p_one);
        }
    }

    /// Registers `conn` under `id`, superseding any prior entry with that
    /// id: the caller must treat a superseded connection as dropped.
    pub fn insert(&mut self, id: String, conn: C)
        requires
            old(self).wf(),
        ensures
            final(self)@ == spec_insert(old(self)@, id@, conn),
            final(self).wf(),
    {
        self.remove(&id);
        let ghost mid = self@;
        let ghost pre_entries = self.entries@;
        self.entries.push((id, conn));
        proof {
            assert(self@ =~= entries_view(pre_entries).push((id@, conn)));
            broadcast use Seq::lemma_filter_pred;

            assert forall|i: int, j: int| 0 <= i < j < self@.len() implies self@[i].0
                != self@[j].0 by {
                if j == self@.len() - 1 {
                    assert(mid[i].0 != id@);
                }
            }
        }
    }
}

/// Whether `ids` holds a string equal to `id`.
fn contains_string(ids: &Vec<String>, id: &String) -> (r: bool)
    ensures
        r == str_ids(ids@).contains(id@),
{
    let n = ids.len();
    let mut i: usize = 0;
    while i < n
        invariant
            n == ids@.len(),
            0 <= i <= n,
            forall|k: int| 0 <= k < i ==> str_ids(ids@)[k] != id@,
        decreases n - i,
    {
        if ids[i] == *id {
            assert(str_ids(ids@)[i as int] == id@);
            return true;
        }
        i += 1;
    }
    assert(!str_ids(ids@).contains(id@));
    false
}

/// Superseding insert: after inserting `c1` and then `c2` under one id,
/// the registry holds exactly one entry for that id, bound to `c2`, and is
/// as if only `c2` had been inserted.
pub proof fn lemma_insert_supersedes<C>(v: Seq<(Seq<char>, C)>, id: Seq<char>, c1: C, c2: C)
    requires
        unique_ids(v),
    ensures
        spec_insert(spec_insert(v, id, c1), id, c2) == spec_insert(v, id, c2),
        entries_for(spec_insert(spec_insert(v, id, c1), id, c2), id) == seq![(id, c2)],
{
    broadcast use Seq::lemma_filter_pred;
    broadcast use lemma_filter_push;
    broadcast use lemma_filter_all;
    broadcast use lemma_filter_none;

    let r = spec_remove(v, id);
    // every entry left after the removal carries another id
    assert(forall|i: int| 0 <= i < r.len() ==> (#[trigger] r[i]).0 != id);
    // removing id again after the first insert undoes exactly that insert
    assert(spec_remove(spec_insert(v, id, c1), id) == r);
    // the id's entries in the final state are the one pushed binding
    assert(entries_for(spec_insert(v, id, c2), id) == seq![(id, c2)]) by {
        assert(entries_for(r.push((id, c2)), id) == entries_for(r, id).push((id, c2)));
        assert(entries_for(r, id) == Seq::<(Seq<char>, C)>::empty());
        assert(Seq::<(Seq<char>, C)>::empty().push((id, c2)) =~= seq![(id, c2)]);
    }
}

/// Sweeping one unwritable peer out of a registry of `N` peers leaves
/// exactly the other `N - 1`.
pub proof fn lemma_remove_one_count<C>(v: Seq<(Seq<char>, C)>, k: Seq<char>)
    requires
        unique_ids(v),
        has_id(v, k),
    ensures
        spec_remove(v, k).len() == v.len() - 1,
    decreases v.len(),
{
    broadcast use lemma_filter_all;

    reveal(Seq::filter);
    let t = v.drop_last();
    assert(unique_ids(t)) by {
        assert(forall|i: int| 0 <= i < t.len() ==> t[i] == v[i]);
    }
    if v.last().0 == k {
        // the failed peer is the last entry: all earlier ids differ from it
        assert(forall|i: int| 0 <= i < t.len() ==> (#[trigger] t[i]).0 != k);
        assert(spec_remove(v, k) == spec_remove(t, k));
        assert(spec_remove(t, k) == t);
    } else {
        // the failed peer stands earlier: recurse past the kept last entry
        assert(has_id(t, k)) by {
            let i = choose|i: int| 0 <= i < v.len() && v[i].0 == k;
            assert(i != v.len() - 1);
            assert(t[i].0 == k);
        }
        lemma_remove_one_count(t, k);
        assert(spec_remove(v, k) == spec_remove(t, k).push(v.last()));
    }
}

/// Per-peer failure isolation: sweeping the failed ids out of the
/// registry drops exactly those peers; every other peer stays, bound as
/// before.
pub proof fn lemma_remove_failed_isolates<C>(v: Seq<(Seq<char>, C)>, failed: Seq<Seq<char>>)
    requires
        unique_ids(v),
    ensures
        forall|id: Seq<char>|
            failed.contains(id) ==> !#[trigger] has_id(spec_remove_all(v, failed), id),
        forall|i: int|
            0 <= i < v.len() && !failed.contains(v[i].0) ==> #[trigger] spec_remove_all(
                v,
                failed,
            ).contains(v[i]),
{
    let pred = |p: (Seq<char>, C)| !failed.contains(p.0);
    let out = v.filter(pred);
    assert forall|id: Seq<char>| failed.contains(id) implies !#[trigger] has_id(
        spec_remove_all(v, failed),
        id,
    ) by {
        if has_id(out, id) {
            let i = choose|i: int| 0 <= i < out.len() && out[i].0 == id;
            Seq::lemma_filter_pred(v, pred, i);
        }
    }
    assert forall|i: int|
        0 <= i < v.len() && !failed.contains(v[i].0) implies #[trigger] spec_remove_all(
        v,
        failed,
    ).contains(v[i]) by {
        Seq::lemma_filter_contains(v, pred, i);
    }
}

} // verus!
