// The active subscriptions of a relay connection: subscription id to
// filters. They are kept across reconnects and replayed on every new
// connection.

use vstd::prelude::*;

use crate::json::JsonValue;
use crate::text::str_eq;
use crate::ws::protocol::{format_req, req_frame};
use crate::ws::subscription::Filter;

verus! {

/// Some entry has id `k`.
pub open spec fn holds_id(es: Seq<(String, Vec<Filter>)>, k: Seq<char>) -> bool {
    exists|i: int| 0 <= i < es.len() && (#[trigger] es[i]).0@ == k
}

/// No id occurs twice.
pub open spec fn unique_ids(es: Seq<(String, Vec<Filter>)>) -> bool {
    forall|i: int, j: int| 0 <= i < es.len() && 0 <= j < es.len() && i != j ==> (#[trigger] es[i]).0@ != (
    #[trigger] es[j]).0@
}

/// The map from id to filters that the entries hold.
pub open spec fn entries_map(es: Seq<(String, Vec<Filter>)>) -> Map<Seq<char>, Seq<Filter>> {
    Map::new(
        |k: Seq<char>| holds_id(es, k),
        |k: Seq<char>| es[choose|i: int| 0 <= i < es.len() && (#[trigger] es[i]).0@ == k].1@,
    )
}

/// With unique ids, entry `i` is what the map holds under its id.
proof fn lemma_entry(es: Seq<(String, Vec<Filter>)>, i: int)
    requires
        unique_ids(es),
        0 <= i < es.len(),
    ensures
        entries_map(es).dom().contains(es[i].0@),
        entries_map(es)[es[i].0@] == es[i].1@,
{
    let k = es[i].0@;
    assert(holds_id(es, k));
    let j = choose|j: int| 0 <= j < es.len() && (#[trigger] es[j]).0@ == k;
    if j != i {
        assert(es[i].0@ != es[j].0@);
    }
}

/// The active subscriptions, each under its id, in the order they were
/// first opened.
pub struct SubscriptionRegistry {
    entries: Vec<(String, Vec<Filter>)>,
}

impl SubscriptionRegistry {
    /// No id occurs twice.
    #[verifier::type_invariant]
    spec fn ids_unique(&self) -> bool {
        unique_ids(self.entries@)
    }

    /// The filters of each active subscription, by id.
    pub closed spec fn subs(&self) -> Map<Seq<char>, Seq<Filter>> {
        entries_map(self.entries@)
    }

    /// The ids of the active subscriptions, in replay order.
    pub closed spec fn order(&self) -> Seq<Seq<char>> {
        self.entries@.map_values(|e: (String, Vec<Filter>)| e.0@)
    }

    /// No subscriptions.
    pub fn new() -> (r: Self)
        ensures
            r.subs() == Map::<Seq<char>, Seq<Filter>>::empty(),
    {
        let r = SubscriptionRegistry { entries: Vec::new() };
        assert(r.subs() =~= Map::<Seq<char>, Seq<Filter>>::empty());
        r
    }

    /// The position of the entry with id `id`.
    fn position(&self, id: &str) -> (r: Option<usize>)
        ensures
            r matches Some(i) ==> i < self.entries@.len() && self.entries@[i as int].0@ == id@,
            r is None ==> !holds_id(self.entries@, id@),
    {
        let mut i: usize = 0;
        while i < self.entries.len()
            invariant
                i <= self.entries@.len(),
                forall|j: int| 0 <= j < i ==> (#[trigger] self.entries@[j]).0@ != id@,
            decreases self.entries@.len() - i,
        {
            if str_eq(self.entries[i].0.as_str(), id) {
                return Some(i);
            }
            i = i + 1;
        }
        None
    }

    /// Whether subscription `id` is active.
    pub fn contains(&self, id: &str) -> (r: bool)
        ensures
            r == self.subs().dom().contains(id@),
    {
        self.position(id).is_some()
    }

    /// Opens subscription `id` with `filters`, replacing the filters of an
    /// active subscription of that id.
    pub fn subscribe(&mut self, id: String, filters: Vec<Filter>)
        ensures
            final(self).subs() == old(self).subs().insert(id@, filters@),
    {
        proof {
            use_type_invariant(&*self);
        }
        let ghost old_es = self.entries@;
        let ghost key = id@;
        let ghost val = filters@;
        match self.position(id.as_str()) {
            Some(i) => {
                let mut entries: Vec<(String, Vec<Filter>)> = Vec::new();
                std::mem::swap(&mut entries, &mut self.entries);
                entries.set(i, (id, filters));
                let ghost es = entries@;
                proof {
                    assert(es == old_es.update(i as int, es[i as int]));
                    assert(unique_ids(es)) by {
                        assert forall|a: int, b: int|
                            0 <= a < es.len() && 0 <= b < es.len() && a != b implies (#[trigger] es[a]).0@
                            != (#[trigger] es[b]).0@ by {
                            if a != i && b != i {
                                assert(old_es[a].0@ != old_es[b].0@);
                            } else if a == i {
                                assert(old_es[a].0@ != old_es[b].0@);
                            } else {
                                assert(old_es[a].0@ != old_es[b].0@);
                            }
                        }
                    }
                    self.lemma_replace(old_es, es, i as int, key, val);
                }
                self.entries = entries;
            },
            None => {
                let mut entries: Vec<(String, Vec<Filter>)> = Vec::new();
                std::mem::swap(&mut entries, &mut self.entries);
                entries.push((id, filters));
                let ghost es = entries@;
                proof {
                    assert(unique_ids(es)) by {
                        assert forall|a: int, b: int|
                            0 <= a < es.len() && 0 <= b < es.len() && a != b implies (#[trigger] es[a]).0@
                            != (#[trigger] es[b]).0@ by {
                            if a < old_es.len() && b < old_es.len() {
                                assert(old_es[a].0@ != old_es[b].0@);
                            } else if a < old_es.len() {
                                assert(es[a] == old_es[a]);
                            } else {
                                assert(es[b] == old_es[b]);
                            }
                        }
                    }
                    self.lemma_append(old_es, es, key, val);
                }
                self.entries = entries;
            },
        }
    }

    /// Replacing the entry at `i` (which has id `key`) by `(key, val)`.
    proof fn lemma_replace(
        &self,
        old_es: Seq<(String, Vec<Filter>)>,
        es: Seq<(String, Vec<Filter>)>,
        i: int,
        key: Seq<char>,
        val: Seq<Filter>,
    )
        requires
            unique_ids(old_es),
            unique_ids(es),
            0 <= i < old_es.len(),
            es.len() == old_es.len(),
            old_es[i].0@ == key,
            es[i].0@ == key,
            es[i].1@ == val,
            forall|j: int| 0 <= j < es.len() && j != i ==> es[j] == old_es[j],
        ensures
            entries_map(es) == entries_map(old_es).insert(key, val),
    {
        let m = entries_map(old_es).insert(key, val);
        assert forall|k: Seq<char>| #[trigger] entries_map(es).dom().contains(k) <==> m.dom().contains(k) by {
            if k != key {
                if holds_id(es, k) {
                    let j = choose|j: int| 0 <= j < es.len() && (#[trigger] es[j]).0@ == k;
                    assert(old_es[j].0@ == k);
                }
                if holds_id(old_es, k) {
                    let j = choose|j: int| 0 <= j < old_es.len() && (#[trigger] old_es[j]).0@ == k;
                    assert(es[j].0@ == k);
                }
            } else {
                assert(holds_id(es, k));
            }
        }
        assert forall|k: Seq<char>| #[trigger] entries_map(es).dom().contains(k) implies entries_map(es)[k]
            == m[k] by {
            let j = choose|j: int| 0 <= j < es.len() && (#[trigger] es[j]).0@ == k;
            lemma_entry(es, j);
            if j != i {
                lemma_entry(old_es, j);
            }
        }
        assert(entries_map(es) =~= m);
    }

    /// Appending `(key, val)`, whose id no entry had.
    proof fn lemma_append(
        &self,
        old_es: Seq<(String, Vec<Filter>)>,
        es: Seq<(String, Vec<Filter>)>,
        key: Seq<char>,
        val: Seq<Filter>,
    )
        requires
            unique_ids(old_es),
            unique_ids(es),
            es.len() == old_es.len() + 1,
            es[old_es.len() as int].0@ == key,
            es[old_es.len() as int].1@ == val,
            forall|j: int| 0 <= j < old_es.len() ==> es[j] == old_es[j],
        ensures
            entries_map(es) == entries_map(old_es).insert(key, val),
    {
        let m = entries_map(old_es).insert(key, val);
        let n = old_es.len() as int;
        assert forall|k: Seq<char>| #[trigger] entries_map(es).dom().contains(k) <==> m.dom().contains(k) by {
            if holds_id(es, k) && k != key {
                let j = choose|j: int| 0 <= j < es.len() && (#[trigger] es[j]).0@ == k;
                assert(old_es[j].0@ == k);
            }
            if holds_id(old_es, k) {
                let j = choose|j: int| 0 <= j < old_es.len() && (#[trigger] old_es[j]).0@ == k;
                assert(es[j].0@ == k);
            }
            if k == key {
                assert(es[n].0@ == k);
            }
        }
        assert forall|k: Seq<char>| #[trigger] entries_map(es).dom().contains(k) implies entries_map(es)[k]
            == m[k] by {
            let j = choose|j: int| 0 <= j < es.len() && (#[trigger] es[j]).0@ == k;
            lemma_entry(es, j);
            if j != n {
                lemma_entry(old_es, j);
            }
        }
        assert(entries_map(es) =~= m);
    }

    /// Closes subscription `id`; nothing changes when it is not active.
    pub fn unsubscribe(&mut self, id: &str)
        ensures
            final(self).subs() == old(self).subs().remove(id@),
    {
        proof {
            use_type_invariant(&*self);
        }
        let ghost old_es = self.entries@;
        match self.position(id) {
            Some(i) => {
                let mut entries: Vec<(String, Vec<Filter>)> = Vec::new();
                std::mem::swap(&mut entries, &mut self.entries);
                entries.remove(i);
                let ghost es = entries@;
                proof {
                    assert(es == old_es.remove(i as int));
                    assert(unique_ids(es)) by {
                        assert forall|a: int, b: int|
                            0 <= a < es.len() && 0 <= b < es.len() && a != b implies (#[trigger] es[a]).0@
                            != (#[trigger] es[b]).0@ by {
                            let a2 = if a < i { a } else { a + 1 };
                            let b2 = if b < i { b } else { b + 1 };
                            assert(es[a] == old_es[a2]);
                            assert(es[b] == old_es[b2]);
                            assert(old_es[a2].0@ != old_es[b2].0@);
                        }
                    }
                    self.lemma_remove(old_es, es, i as int, id@);
                }
                self.entries = entries;
            },
            None => {
                proof {
                    assert(old_es.len() == self.entries@.len());
                    assert(self.subs() =~= self.subs().remove(id@));
                }
            },
        }
    }

    /// Removing the entry at `i`, which has id `key`.
    proof fn lemma_remove(
        &self,
        old_es: Seq<(String, Vec<Filter>)>,
        es: Seq<(String, Vec<Filter>)>,
        i: int,
        key: Seq<char>,
    )
        requires
            unique_ids(old_es),
            unique_ids(es),
            0 <= i < old_es.len(),
            old_es[i].0@ == key,
            es == old_es.remove(i),
        ensures
            entries_map(es) == entries_map(old_es).remove(key),
    {
        let m = entries_map(old_es).remove(key);
        assert forall|k: Seq<char>| #[trigger] entries_map(es).dom().contains(k) <==> m.dom().contains(k) by {
            if holds_id(es, k) {
                let j = choose|j: int| 0 <= j < es.len() && (#[trigger] es[j]).0@ == k;
                let j2 = if j < i { j } else { j + 1 };
                assert(es[j] == old_es[j2]);
                assert(holds_id(old_es, k));
                assert(j2 != i);
                assert(old_es[j2].0@ != old_es[i].0@);
            }
            if holds_id(old_es, k) && k != key {
                let j = choose|j: int| 0 <= j < old_es.len() && (#[trigger] old_es[j]).0@ == k;
                assert(j != i);
                let j2 = if j < i { j } else { j - 1 };
                assert(es[j2] == old_es[j]);
                assert(holds_id(es, k));
            }
        }
        assert forall|k: Seq<char>| #[trigger] entries_map(es).dom().contains(k) implies entries_map(es)[k]
            == m[k] by {
            let j = choose|j: int| 0 <= j < es.len() && (#[trigger] es[j]).0@ == k;
            let j2 = if j < i { j } else { j + 1 };
            assert(es[j] == old_es[j2]);
            lemma_entry(es, j);
            lemma_entry(old_es, j2);
        }
        assert(entries_map(es) =~= m);
    }

    /// The REQ frames that reopen every active subscription: one per
    /// subscription, in replay order, which lists each active subscription
    /// exactly once.
    pub fn replay_frames(&self) -> (r: Vec<JsonValue>)
        ensures
            r@.len() == self.order().len(),
            forall|i: int|
                0 <= i < r@.len() ==> req_frame(#[trigger] r@[i], self.order()[i], self.subs()[self.order()[i]]),
            forall|i: int, j: int|
                0 <= i < self.order().len() && 0 <= j < self.order().len() && i != j ==> self.order()[i]
                    != self.order()[j],
            forall|k: Seq<char>| self.subs().dom().contains(k) <==> self.order().contains(k),
    {
        proof {
            use_type_invariant(self);
            let es = self.entries@;
            assert forall|k: Seq<char>| self.subs().dom().contains(k) implies self.order().contains(k) by {
                let i = choose|i: int| 0 <= i < es.len() && (#[trigger] es[i]).0@ == k;
                assert(self.order()[i] == k);
            }
            assert forall|k: Seq<char>| self.order().contains(k) implies self.subs().dom().contains(k) by {
                let i = choose|i: int| 0 <= i < self.order().len() && self.order()[i] == k;
                assert(es[i].0@ == k);
                assert(holds_id(es, k));
            }
        }
        let mut frames: Vec<JsonValue> = Vec::new();
        let mut i: usize = 0;
        while i < self.entries.len()
            invariant
                unique_ids(self.entries@),
                i <= self.entries@.len(),
                frames@.len() == i,
                forall|k: int|
                    0 <= k < i ==> req_frame(
                        #[trigger] frames@[k],
                        self.entries@[k].0@,
                        self.entries@[k].1@,
                    ),
            decreases self.entries@.len() - i,
        {
            let entry = &self.entries[i];
            frames.push(format_req(entry.0.as_str(), entry.1.as_slice()));
            i = i + 1;
        }
        proof {
            assert forall|k: int| 0 <= k < frames@.len() implies req_frame(
                #[trigger] frames@[k],
                self.order()[k],
                self.subs()[self.order()[k]],
            ) by {
                lemma_entry(self.entries@, k);
            }
        }
        frames
    }
}

/// Opening a subscription and then closing it leaves the other
/// subscriptions as they were; closing one that is not active changes
/// nothing.
pub proof fn law_subscribe_then_unsubscribe(
    subs: Map<Seq<char>, Seq<Filter>>,
    id: Seq<char>,
    filters: Seq<Filter>,
)
    ensures
        subs.insert(id, filters).remove(id) == subs.remove(id),
        !subs.dom().contains(id) ==> subs.remove(id) == subs,
{
    assert(subs.insert(id, filters).remove(id) =~= subs.remove(id));
    if !subs.dom().contains(id) {
        assert(subs.remove(id) =~= subs);
    }
}

} // verus!
