//! A small keyed table: values stored under text identifiers, each
//! identifier at most once. Its view is the finite map from identifier to
//! the view of the value stored under it.

use vstd::prelude::*;
use crate::text::str_eq;

verus! {

/// One identifier with the value stored under it.
#[derive(Debug, PartialEq, Eq)]
pub struct Entry<V> {
    pub id: String,
    pub value: V,
}

/// Values keyed by identifier, kept in insertion order.
#[derive(Debug, PartialEq, Eq)]
pub struct Registry<V> {
    pub entries: Vec<Entry<V>>,
}

impl<V: View> View for Registry<V> {
    type V = Map<Seq<char>, V::V>;

    open spec fn view(&self) -> Map<Seq<char>, V::V> {
        Map::new(|id: Seq<char>| self.has(id), |id: Seq<char>| self.entries[self.slot(id)].value@)
    }
}

impl<V: View> Registry<V> {
    /// No identifier is stored twice.
    pub open spec fn wf(&self) -> bool {
        forall|i: int, j: int|
            0 <= i < j < self.entries.len() ==> self.entries[i].id@ != self.entries[j].id@
    }

    /// Some entry is stored under `id`.
    pub open spec fn has(&self, id: Seq<char>) -> bool {
        exists|i: int| 0 <= i < self.entries.len() && #[trigger] self.entries[i].id@ == id
    }

    /// The entry at position `k` is the first one stored under `id`.
    pub open spec fn is_first(&self, id: Seq<char>, k: int) -> bool {
        &&& 0 <= k < self.entries.len()
        &&& self.entries[k].id@ == id
        &&& forall|j: int| 0 <= j < k ==> self.entries[j].id@ != id
    }

    /// The position of the first entry stored under `id`.
    pub open spec fn slot(&self, id: Seq<char>) -> int {
        choose|k: int| self.is_first(id, k)
    }

    /// Where some entry is stored under `id`, one of them is the first.
    proof fn lemma_least(&self, id: Seq<char>, i: int)
        requires
            0 <= i < self.entries.len(),
            self.entries[i].id@ == id,
        ensures
            exists|k: int| self.is_first(id, k),
        decreases i,
    {
        if exists|j: int| 0 <= j < i && #[trigger] self.entries[j].id@ == id {
            let j = choose|j: int| 0 <= j < i && #[trigger] self.entries[j].id@ == id;
            self.lemma_least(id, j);
        } else {
            assert(self.is_first(id, i));
        }
    }

    /// The first entry stored under an identifier is at the slot of that
    /// identifier, and it is what the view maps the identifier to.
    pub proof fn lemma_first(&self, id: Seq<char>, k: int)
        requires
            self.is_first(id, k),
        ensures
            self.has(id),
            self.slot(id) == k,
            self@.contains_key(id),
            self@[id] == self.entries[k].value@,
    {
        assert(self.entries[k].id@ == id);
        let c = self.slot(id);
        assert(self.is_first(id, c));
        if c < k {
            assert(self.entries[c].id@ != id);
        }
        if k < c {
            assert(self.entries[k].id@ != id);
        }
    }

    /// In a well-formed table the entry at position `i` is the one its
    /// identifier maps to.
    pub proof fn lemma_entry(&self, i: int)
        requires
            self.wf(),
            0 <= i < self.entries.len(),
        ensures
            self.has(self.entries[i].id@),
            self.slot(self.entries[i].id@) == i,
            self@.contains_key(self.entries[i].id@),
            self@[self.entries[i].id@] == self.entries[i].value@,
    {
        let id = self.entries[i].id@;
        assert forall|j: int| 0 <= j < i implies self.entries[j].id@ != id by {
            assert(self.entries[j].id@ != self.entries[i].id@);
        }
        self.lemma_first(id, i);
    }

    /// A key of the view is stored at its slot, and nowhere before it.
    pub proof fn lemma_slot(&self, id: Seq<char>)
        requires
            self@.contains_key(id),
        ensures
            self.is_first(id, self.slot(id)),
            0 <= self.slot(id) < self.entries.len(),
            self.entries[self.slot(id)].id@ == id,
            self@[id] == self.entries[self.slot(id)].value@,
    {
        let i = choose|i: int| 0 <= i < self.entries.len() && #[trigger] self.entries[i].id@ == id;
        self.lemma_least(id, i);
    }

    /// Tables with the same entries have the same view.
    pub proof fn lemma_same_entries(&self, other: &Registry<V>)
        requires
            self.entries@ == other.entries@,
        ensures
            self@ == other@,
            self.wf() == other.wf(),
    {
        assert forall|id: Seq<char>| self@.contains_key(id) <==> other@.contains_key(id) by {
            if self@.contains_key(id) {
                self.lemma_slot(id);
                assert(other.entries[self.slot(id)].id@ == id);
            }
            if other@.contains_key(id) {
                other.lemma_slot(id);
                assert(self.entries[other.slot(id)].id@ == id);
            }
        }
        assert forall|id: Seq<char>| self@.contains_key(id) implies self@[id] == other@[id] by {
            self.lemma_slot(id);
            let k = self.slot(id);
            assert(other.is_first(id, k));
            other.lemma_first(id, k);
        }
        assert(self@ =~= other@);
    }

    /// Replacing the value of the first entry under an identifier,
    /// identifiers untouched, updates the view at that identifier and
    /// nowhere else.
    pub proof fn lemma_replaced(&self, before: &Registry<V>, i: int)
        requires
            before.is_first(before.entries[i].id@, i),
            self.entries.len() == before.entries.len(),
            forall|j: int|
                0 <= j < before.entries.len() ==> #[trigger] self.entries[j].id@
                    == before.entries[j].id@,
            forall|j: int|
                0 <= j < before.entries.len() && j != i ==> #[trigger] self.entries[j].value@
                    == before.entries[j].value@,
        ensures
            before.wf() ==> self.wf(),
            self@ == before@.insert(before.entries[i].id@, self.entries[i].value@),
    {
        if before.wf() {
            assert forall|a: int, b: int| 0 <= a < b < self.entries.len() implies self.entries[a].id@
                != self.entries[b].id@ by {
                assert(before.entries[a].id@ != before.entries[b].id@);
            }
        }
        let key = before.entries[i].id@;
        let target = before@.insert(key, self.entries[i].value@);
        assert forall|id: Seq<char>| self@.contains_key(id) <==> target.contains_key(id) by {
            if self@.contains_key(id) {
                self.lemma_slot(id);
                assert(before.entries[self.slot(id)].id@ == id);
            }
            if before@.contains_key(id) {
                before.lemma_slot(id);
                assert(self.entries[before.slot(id)].id@ == id);
            }
            if id == key {
                assert(self.entries[i].id@ == id);
            }
        }
        assert forall|id: Seq<char>| self@.contains_key(id) implies self@[id] == target[id] by {
            self.lemma_slot(id);
            let k = self.slot(id);
            assert(before.is_first(id, k)) by {
                assert(before.entries[k].id@ == self.entries[k].id@);
                assert forall|j: int| 0 <= j < k implies before.entries[j].id@ != id by {
                    assert(before.entries[j].id@ == self.entries[j].id@);
                }
            }
            before.lemma_first(id, k);
            before.lemma_first(key, i);
        }
        assert(self@ =~= target);
    }

    /// Appending an entry under a fresh identifier extends the view by it.
    pub proof fn lemma_appended(&self, before: &Registry<V>)
        requires
            self.entries.len() == before.entries.len() + 1,
            forall|j: int|
                0 <= j < before.entries.len() ==> #[trigger] self.entries[j] == before.entries[j],
            !before@.contains_key(self.entries[before.entries.len() as int].id@),
        ensures
            before.wf() ==> self.wf(),
            self@ == before@.insert(
                self.entries[before.entries.len() as int].id@,
                self.entries[before.entries.len() as int].value@,
            ),
    {
        let n = before.entries.len() as int;
        let key = self.entries[n].id@;
        if before.wf() {
            assert forall|a: int, b: int| 0 <= a < b < self.entries.len() implies self.entries[a].id@
                != self.entries[b].id@ by {
                assert(self.entries[a] == before.entries[a]);
                if b < n {
                    assert(self.entries[b] == before.entries[b]);
                } else {
                    if before.entries[a].id@ == key {
                        assert(before.has(key));
                    }
                }
            }
        }
        let target = before@.insert(key, self.entries[n].value@);
        assert forall|id: Seq<char>| self@.contains_key(id) <==> target.contains_key(id) by {
            if self@.contains_key(id) {
                self.lemma_slot(id);
                let j = self.slot(id);
                if j < n {
                    assert(self.entries[j] == before.entries[j]);
                    assert(before.entries[j].id@ == id);
                }
            }
            if before@.contains_key(id) {
                before.lemma_slot(id);
                let j = before.slot(id);
                assert(self.entries[j] == before.entries[j]);
                assert(self.entries[j].id@ == id);
            }
            if id == key {
                assert(self.entries[n].id@ == id);
            }
        }
        assert forall|id: Seq<char>| self@.contains_key(id) implies self@[id] == target[id] by {
            self.lemma_slot(id);
            let k = self.slot(id);
            if k < n {
                assert(before.is_first(id, k)) by {
                    assert(self.entries[k] == before.entries[k]);
                    assert forall|j: int| 0 <= j < k implies before.entries[j].id@ != id by {
                        assert(self.entries[j] == before.entries[j]);
                    }
                }
                before.lemma_first(id, k);
            }
        }
        assert(self@ =~= target);
    }

    /// An empty table.
    pub fn new() -> (r: Self)
        ensures
            r.wf(),
            r@ == Map::<Seq<char>, V::V>::empty(),
            r.entries@.len() == 0,
    {
        let r = Registry { entries: Vec::new() };
        assert(r@ =~= Map::<Seq<char>, V::V>::empty());
        r
    }

    /// The number of entries.
    pub fn len(&self) -> (n: usize)
        ensures
            n == self.entries.len(),
    {
        self.entries.len()
    }

    /// The position of the first entry stored under `id`, if there is one.
    pub fn position(&self, id: &str) -> (r: Option<usize>)
        ensures
            r is Some <==> self@.contains_key(id@),
            r matches Some(i) ==> self.is_first(id@, i as int) && i == self.slot(id@),
    {
        let mut i: usize = 0;
        while i < self.entries.len()
            invariant
                i <= self.entries.len(),
                forall|j: int| 0 <= j < i ==> self.entries[j].id@ != id@,
            decreases self.entries.len() - i,
        {
            if str_eq(self.entries[i].id.as_str(), id) {
                proof {
                    self.lemma_first(id@, i as int);
                }
                return Some(i);
            }
            i += 1;
        }
        None
    }

    /// Whether an entry is stored under `id`.
    pub fn contains(&self, id: &str) -> (b: bool)
        ensures
            b == self@.contains_key(id@),
    {
        self.position(id).is_some()
    }

    /// The value stored under `id`: that of the first entry under it.
    pub fn get(&self, id: &str) -> (r: Option<&V>)
        ensures
            r is Some <==> self@.contains_key(id@),
            r matches Some(v) ==> v@ == self@[id@] && *v == self.entries[self.slot(id@)].value,
    {
        match self.position(id) {
            Some(i) => {
                proof {
                    self.lemma_first(id@, i as int);
                }
                Some(&self.entries[i].value)
            },
            None => None,
        }
    }

    /// Whether no identifier is stored twice.
    pub fn is_wf(&self) -> (b: bool)
        ensures
            b == self.wf(),
    {
        let mut i: usize = 0;
        while i < self.entries.len()
            invariant
                i <= self.entries.len(),
                forall|a: int, b: int|
                    0 <= a < b < i ==> self.entries[a].id@ != self.entries[b].id@,
            decreases self.entries.len() - i,
        {
            let mut j: usize = 0;
            while j < i
                invariant
                    j <= i < self.entries.len(),
                    forall|a: int| 0 <= a < j ==> self.entries[a].id@ != self.entries[i as int].id@,
                decreases i - j,
            {
                if str_eq(self.entries[j].id.as_str(), self.entries[i].id.as_str()) {
                    return false;
                }
                j += 1;
            }
            i += 1;
        }
        true
    }

    /// Stores `value` under `id`, in place of the value that was stored
    /// there, if any.
    pub fn insert(&mut self, id: String, value: V)
        ensures
            old(self).wf() ==> final(self).wf(),
            final(self)@ == old(self)@.insert(id@, value@),
    {
        let ghost before = *self;
        match self.position(id.as_str()) {
            Some(i) => {
                self.entries[i].value = value;
                proof {
                    self.lemma_replaced(&before, i as int);
                }
            },
            None => {
                self.entries.push(Entry { id, value });
                proof {
                    self.lemma_appended(&before);
                }
            },
        }
    }
}

} // verus!
