//! The destination router table: one live queue handle per destination
//! stream, looked up on every write, replaced when its worker has
//! exited. The table is the only shared structure; the caller guards it
//! with its reader-writer lock and supplies handle liveness.
use vstd::prelude::*;

verus! {

/// An association from stream names to queue handles with at most one
/// entry per name.
pub struct RouterTable<H> {
    keys: Vec<String>,
    handles: Vec<H>,
}

impl<H> RouterTable<H> {
    /// One handle per key, and every key appears once.
    pub closed spec fn wf(self) -> bool {
        &&& self.keys@.len() == self.handles@.len()
        &&& forall|i: int, j: int|
            0 <= i < j < self.keys@.len() ==> self.keys@[i]@ != self.keys@[j]@
    }

    /// Whether the table has an entry for the stream name `k`.
    pub closed spec fn spec_contains(self, k: Seq<char>) -> bool {
        exists|i: int| 0 <= i < self.keys@.len() && self.keys@[i]@ == k
    }

    /// The index of `k`'s entry, when one exists.
    pub closed spec fn key_index(self, k: Seq<char>) -> int {
        choose|i: int| 0 <= i < self.keys@.len() && self.keys@[i]@ == k
    }

    /// The handle held for the stream name `k`, when one exists.
    pub closed spec fn spec_handle(self, k: Seq<char>) -> H {
        self.handles@[self.key_index(k)]
    }

    /// An empty table.
    pub fn new() -> (t: RouterTable<H>)
        ensures
            t.wf(),
            forall|k: Seq<char>| !t.spec_contains(k),
    {
        RouterTable { keys: Vec::new(), handles: Vec::new() }
    }

    /// Find the handle registered for `key`. The result is a function
    /// of the table alone: as long as no entry is replaced, every
    /// lookup of the same key yields the same handle.
    pub fn lookup(&self, key: &String) -> (r: Option<&H>)
        requires
            self.wf(),
        ensures
            r matches Some(h) ==> self.spec_contains(key@) && *h == self.spec_handle(key@),
            r is None ==> !self.spec_contains(key@),
    {
        let n = self.keys.len();
        let mut i: usize = 0;
        while i < n
            invariant
                n == self.keys@.len() == self.handles@.len(),
                0 <= i <= n,
                self.wf(),
                forall|j: int| 0 <= j < i ==> self.keys@[j]@ != key@,
            decreases n - i,
        {
            if self.keys[i] == *key {
                proof {
                    assert(self.keys@[i as int]@ == key@);
                    assert(self.spec_contains(key@));
                    let w = self.key_index(key@);
                    assert(0 <= w < self.keys@.len() && self.keys@[w]@ == key@);
                    assert(w == i as int);
                }
                return Some(&self.handles[i]);
            }
            i = i + 1;
        }
        None
    }

    /// Register `handle` for `key`, replacing a stale entry when one is
    /// there: the entry for `key` becomes `handle` and every other
    /// entry is untouched.
    pub fn install(&mut self, key: String, handle: H)
        requires
            old(self).wf(),
        ensures
            final(self).wf(),
            final(self).spec_contains(key@),
            final(self).spec_handle(key@) == handle,
            forall|k: Seq<char>|
                k != key@ ==> final(self).spec_contains(k) == old(self).spec_contains(k),
            forall|k: Seq<char>|
                k != key@ && old(self).spec_contains(k) ==> final(self).spec_handle(k) == old(
                    self,
                ).spec_handle(k),
    {
        let n = self.keys.len();
        let mut i: usize = 0;
        while i < n
            invariant
                n == self.keys@.len() == self.handles@.len(),
                0 <= i <= n,
                self.wf(),
                *self == *old(self),
                forall|j: int| 0 <= j < i ==> self.keys@[j]@ != key@,
            decreases n - i,
        {
            if self.keys[i] == key {
                self.handles.remove(i);
                self.handles.insert(i, handle);
                proof {
                    assert(self.handles@ =~= old(self).handles@.update(i as int, handle));
                    self.lemma_pointwise(*old(self), key@, i as int);
                }
                return ;
            }
            i = i + 1;
        }
        self.keys.push(key);
        self.handles.push(handle);
        proof {
            let ghost m = self.keys@.len() - 1;
            assert(self.keys@[m]@ == key@);
            assert forall|k: Seq<char>| #[trigger] self.spec_contains(k) implies k == key@
                || old(self).spec_contains(k) by {
                let w = choose|i: int| 0 <= i < self.keys@.len() && self.keys@[i]@ == k;
                if w < m {
                    assert(old(self).keys@[w]@ == k);
                }
            }
            self.lemma_pointwise(*old(self), key@, m);
        }
    }

    /// After an entry for `k` is set at index `at` (all else equal up
    /// to `at`'s handle), every key's entry is as `install` promises.
    proof fn lemma_pointwise(self, prev: RouterTable<H>, k: Seq<char>, at: int)
        requires
            self.wf(),
            prev.wf(),
            0 <= at < self.keys@.len(),
            self.keys@.len() >= prev.keys@.len(),
            self.keys@[at]@ == k,
            forall|i: int| 0 <= i < prev.keys@.len() ==> self.keys@[i] == prev.keys@[i],
            forall|i: int|
                0 <= i < prev.handles@.len() && i != at ==> self.handles@[i] == prev.handles@[i],
        ensures
            self.spec_contains(k),
            self.spec_handle(k) == self.handles@[at],
            forall|k2: Seq<char>|
                k2 != k && prev.spec_contains(k2) ==> self.spec_contains(k2) && self.spec_handle(
                    k2,
                ) == prev.spec_handle(k2),
    {
        assert(self.spec_contains(k));
        let w = self.key_index(k);
        assert(0 <= w < self.keys@.len() && self.keys@[w]@ == k);
        assert(w == at);
        assert forall|k2: Seq<char>| k2 != k && #[trigger] prev.spec_contains(k2) implies self
            .spec_contains(k2) && self.spec_handle(k2) == prev.spec_handle(k2) by {
            let wp = prev.key_index(k2);
            assert(0 <= wp < prev.keys@.len() && prev.keys@[wp]@ == k2);
            assert(self.keys@[wp]@ == k2);
            assert(self.spec_contains(k2));
            let ws = self.key_index(k2);
            assert(0 <= ws < self.keys@.len() && self.keys@[ws]@ == k2);
            assert(ws == wp);
            assert(wp != at);
        }
    }
}

} // verus!
