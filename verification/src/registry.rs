//! An insert-or-replace registry keyed by string identifiers.
//!
//! The registry is the one data structure everything else in this crate is
//! built on: both the scene graph and the device manager are registries of
//! their respective entities. A registry is modelled as a
//! `Map<Seq<char>, V>` from identifier contents to stored values; inserting
//! under an already-present identifier replaces the old value (last write
//! wins), and a lookup of an unknown identifier reports absence rather than
//! failing.

use vstd::prelude::*;

verus! {

/// One identifier/value pair held by a [`Registry`].
struct Entry<V> {
    key: String,
    val: V,
}

/// A registry mapping string identifiers to owned values, with
/// insert-or-replace and lookup-by-identifier as its only operations.
pub struct Registry<V> {
    entries: Vec<Entry<V>>,
}

impl<V> Registry<V> {
    /// Identifiers are pairwise distinct, so each identifies at most one entry.
    #[verifier::type_invariant]
    spec fn wf(self) -> bool {
        forall|i: int, j: int|
            0 <= i < j < self.entries@.len() ==> self.entries@[i].key@ != self.entries@[j].key@
    }

    /// Some entry is stored under identifier contents `k`.
    spec fn has_key(self, k: Seq<char>) -> bool {
        exists|i: int| 0 <= i < self.entries@.len() && self.entries@[i].key@ == k
    }

    /// The index of the entry stored under `k` (meaningful only when
    /// `has_key(k)` holds; uniqueness follows from `wf`).
    spec fn index_of(self, k: Seq<char>) -> int {
        choose|i: int| 0 <= i < self.entries@.len() && self.entries@[i].key@ == k
    }

    /// The entry at index `i` is exactly what the abstract map stores under
    /// its identifier.
    proof fn lemma_key_at(self, i: int)
        requires
            self.wf(),
            0 <= i < self.entries@.len(),
        ensures
            self.has_key(self.entries@[i].key@),
            self.index_of(self.entries@[i].key@) == i,
            self@.contains_key(self.entries@[i].key@),
            self@[self.entries@[i].key@] == self.entries@[i].val,
    {
        let k = self.entries@[i].key@;
        assert(0 <= i < self.entries@.len() && self.entries@[i].key@ == k);
        assert(self.has_key(k));
        let j = self.index_of(k);
        assert(0 <= j < self.entries@.len() && self.entries@[j].key@ == k);
        if i < j {
            assert(self.entries@[i].key@ != self.entries@[j].key@);
        } else if j < i {
            assert(self.entries@[j].key@ != self.entries@[i].key@);
        }
        assert(j == i);
    }

    /// Replacing the entry at `i` with one carrying equal identifier contents
    /// is an insert on the abstract map.
    proof fn lemma_view_replace(pre: Self, post: Self, i: int, e: Entry<V>)
        requires
            pre.wf(),
            post.wf(),
            0 <= i < pre.entries@.len(),
            post.entries@ == pre.entries@.update(i, e),
            e.key@ == pre.entries@[i].key@,
        ensures
            post@ == pre@.insert(e.key@, e.val),
    {
        let n = pre.entries@.len();
        assert(post.entries@.len() == n);
        assert forall|j: int| 0 <= j < n implies #[trigger] post.entries@[j].key@
            == pre.entries@[j].key@ by {
            if j == i {
                assert(post.entries@[j] == e);
            }
        }
        assert forall|k: Seq<char>| #[trigger] post@.contains_key(k) implies pre@.insert(
            e.key@,
            e.val,
        ).contains_key(k) by {
            let j = post.index_of(k);
            assert(0 <= j < n && post.entries@[j].key@ == k);
            assert(pre.entries@[j].key@ == k);
            assert(pre.has_key(k));
        }
        assert forall|k: Seq<char>|
            #[trigger] pre@.insert(e.key@, e.val).contains_key(k) implies post@.contains_key(
            k,
        ) && post@[k] == pre@.insert(e.key@, e.val)[k] by {
            if k == e.key@ {
                post.lemma_key_at(i);
                assert(post.entries@[i] == e);
                assert(post@[k] == e.val);
            } else {
                let j = pre.index_of(k);
                assert(0 <= j < n && pre.entries@[j].key@ == k);
                assert(j != i);
                pre.lemma_key_at(j);
                post.lemma_key_at(j);
                assert(post.entries@[j] == pre.entries@[j]);
                assert(post@[k] == pre@[k]);
            }
        }
        assert(post@ =~= pre@.insert(e.key@, e.val));
    }

    /// Appending an entry with a fresh identifier is an insert on the
    /// abstract map.
    proof fn lemma_view_push(pre: Self, post: Self, e: Entry<V>)
        requires
            pre.wf(),
            post.wf(),
            post.entries@ == pre.entries@.push(e),
            !pre.has_key(e.key@),
        ensures
            post@ == pre@.insert(e.key@, e.val),
    {
        let n = pre.entries@.len() as int;
        assert(post.entries@.len() == n + 1);
        assert(post.entries@[n] == e);
        assert forall|j: int| 0 <= j < n implies #[trigger] post.entries@[j]
            == pre.entries@[j] by {}
        assert forall|k: Seq<char>| #[trigger] post@.contains_key(k) implies pre@.insert(
            e.key@,
            e.val,
        ).contains_key(k) by {
            let j = post.index_of(k);
            assert(0 <= j < n + 1 && post.entries@[j].key@ == k);
            if j < n {
                assert(pre.entries@[j].key@ == k);
                assert(pre.has_key(k));
            } else {
                assert(k == e.key@);
            }
        }
        assert forall|k: Seq<char>|
            #[trigger] pre@.insert(e.key@, e.val).contains_key(k) implies post@.contains_key(
            k,
        ) && post@[k] == pre@.insert(e.key@, e.val)[k] by {
            if k == e.key@ {
                post.lemma_key_at(n);
                assert(post@[k] == e.val);
            } else {
                let j = pre.index_of(k);
                assert(0 <= j < n && pre.entries@[j].key@ == k);
                pre.lemma_key_at(j);
                post.lemma_key_at(j);
                assert(post@[k] == pre@[k]);
            }
        }
        assert(post@ =~= pre@.insert(e.key@, e.val));
    }

    /// An empty registry.
    pub fn new() -> (r: Self)
        ensures
            r@ == Map::<Seq<char>, V>::empty(),
    {
        let r = Registry { entries: Vec::new() };
        proof {
            assert forall|k: Seq<char>| !(#[trigger] r.has_key(k)) by {}
            assert(r@ =~= Map::<Seq<char>, V>::empty());
        }
        r
    }

    /// Stores `val` under `key`, replacing whatever the registry held under
    /// that identifier before (last write wins).
    pub fn insert(&mut self, key: String, val: V)
        ensures
            final(self)@ == old(self)@.insert(key@, val),
    {
        proof {
            use_type_invariant(&*self);
        }
        let ghost pre = *self;
        let mut entries: Vec<Entry<V>> = Vec::new();
        core::mem::swap(&mut entries, &mut self.entries);
        let n: usize = entries.len();
        let mut i: usize = 0;
        while i < n
            invariant
                pre == *old(self),
                entries@ == pre.entries@,
                pre.wf(),
                n == entries@.len(),
                i <= n,
                forall|j: int| 0 <= j < i ==> entries@[j].key@ != key@,
            decreases n - i,
        {
            if entries[i].key == key {
                entries.set(i, Entry { key, val });
                proof {
                    assert forall|p: int, q: int|
                        0 <= p < q < entries@.len() implies entries@[p].key@
                        != entries@[q].key@ by {
                        assert(pre.entries@[p].key@ != pre.entries@[q].key@);
                    }
                }
                self.entries = entries;
                proof {
                    Self::lemma_view_replace(pre, *self, i as int, self.entries@[i as int]);
                }
                return;
            }
            i += 1;
        }
        entries.push(Entry { key, val });
        proof {
            assert forall|p: int, q: int|
                0 <= p < q < entries@.len() implies entries@[p].key@ != entries@[q].key@ by {
                if q < n {
                    assert(pre.entries@[p].key@ != pre.entries@[q].key@);
                }
            }
        }
        self.entries = entries;
        proof {
            Self::lemma_view_push(pre, *self, self.entries@[n as int]);
        }
    }

    /// Looks up the value stored under `key`, reporting absence on a miss.
    pub fn get<'a>(&'a self, key: &str) -> (r: Option<&'a V>)
        ensures
            match r {
                Some(v) => self@.contains_key(key@) && *v == self@[key@],
                None => !self@.contains_key(key@),
            },
    {
        proof {
            use_type_invariant(&*self);
        }
        let owned: String = key.to_owned();
        let n: usize = self.entries.len();
        let mut i: usize = 0;
        while i < n
            invariant
                self.wf(),
                owned@ == key@,
                n == self.entries@.len(),
                i <= n,
                forall|j: int| 0 <= j < i ==> self.entries@[j].key@ != key@,
            decreases n - i,
        {
            if self.entries[i].key == owned {
                proof {
                    self.lemma_key_at(i as int);
                }
                return Some(&self.entries[i].val);
            }
            i += 1;
        }
        proof {
            assert(!self.has_key(key@));
        }
        None
    }
}

impl<V> View for Registry<V> {
    type V = Map<Seq<char>, V>;

    /// The abstract contents: identifier contents mapped to the stored value.
    closed spec fn view(&self) -> Map<Seq<char>, V> {
        Map::new(
            |k: Seq<char>| self.has_key(k),
            |k: Seq<char>| self.entries@[self.index_of(k)].val,
        )
    }
}

} // verus!
