use vstd::prelude::*;

use crate::codec::bytes_eq;
use crate::error::RuntimeError;
use crate::status::Status;

verus! {

/// One recorded payment: the caller-chosen id and its current status.
struct LedgerEntry {
    key: Vec<u8>,
    status: Status,
}

/// Whether some entry of `s` records the id `id`.
spec fn seq_has_key(s: Seq<LedgerEntry>, id: Seq<u8>) -> bool {
    exists|i: int| 0 <= i < s.len() && s[i].key@ == id
}

/// The status that the entries `s` record under `id`, `NoStatus` if none.
spec fn seq_status_of(s: Seq<LedgerEntry>, id: Seq<u8>) -> Status {
    if seq_has_key(s, id) {
        let i = choose|i: int| 0 <= i < s.len() && s[i].key@ == id;
        s[i].status
    } else {
        Status::NoStatus
    }
}

/// No two entries of `s` record the same id.
spec fn seq_keys_unique(s: Seq<LedgerEntry>) -> bool {
    forall|a: int, b: int| 0 <= a < b < s.len() ==> s[a].key@ != s[b].key@
}

/// The persistent mapping from payment id to status.
///
/// Every id that was never written reads as `Status::NoStatus`; a record is
/// never deleted. The ledger only stores statuses; which transitions an
/// entry point may apply, and who may apply them, is the orchestrator's
/// concern.
pub struct PaymentLedger {
    entries: Vec<LedgerEntry>,
}

impl PaymentLedger {
    /// Each id occurs in at most one entry, so a lookup is unambiguous.
    /// `new` establishes this and every mutating operation preserves it.
    pub closed spec fn wf(self) -> bool {
        seq_keys_unique(self.entries@)
    }

    /// The status recorded under `id`, `NoStatus` if the id was never written.
    pub closed spec fn spec_status_of(self, id: Seq<u8>) -> Status {
        seq_status_of(self.entries@, id)
    }

    /// Returns an empty ledger: every id reads as `NoStatus`.
    pub fn new() -> (l: PaymentLedger)
        ensures
            l.wf(),
            forall|id: Seq<u8>| l.spec_status_of(id) == Status::NoStatus,
    {
        PaymentLedger { entries: Vec::new() }
    }

    /// Returns the position of the entry holding `id`, if one exists.
    fn find_index(&self, id: &Vec<u8>) -> (r: Option<usize>)
        ensures
            match r {
                Some(i) => i < self.entries@.len() && self.entries@[i as int].key@ == id@,
                None => !seq_has_key(self.entries@, id@),
            },
    {
        let mut i: usize = 0;
        while i < self.entries.len()
            invariant
                i <= self.entries@.len(),
                forall|j: int| 0 <= j < i ==> self.entries@[j].key@ != id@,
            decreases self.entries@.len() - i,
        {
            if bytes_eq(&self.entries[i].key, id) {
                return Some(i);
            }
            i += 1;
        }
        None
    }

    /// Returns the status recorded under `id`; never fails.
    pub fn status_of(&self, id: &Vec<u8>) -> (r: Status)
        requires
            self.wf(),
        ensures
            r == self.spec_status_of(id@),
    {
        match self.find_index(id) {
            Some(i) => {
                proof {
                    lemma_unique_key_status(self.entries@, i as int);
                }
                self.entries[i].status
            },
            None => Status::NoStatus,
        }
    }

    /// Writes `status` under `key`, leaving every other id unchanged.
    fn set_status(&mut self, key: Vec<u8>, status: Status)
        requires
            old(self).wf(),
        ensures
            final(self).wf(),
            final(self).spec_status_of(key@) == status,
            forall|other: Seq<u8>|
                other != key@ ==> final(self).spec_status_of(other) == old(
                    self,
                ).spec_status_of(other),
    {
        let ghost pre = self.entries@;
        match self.find_index(&key) {
            Some(i) => {
                self.entries[i] = LedgerEntry { key, status };
                proof {
                    let post = self.entries@;
                    assert forall|a: int, b: int| 0 <= a < b < post.len() implies post[a].key@
                        != post[b].key@ by {
                        assert(pre[a].key@ != pre[b].key@);
                    }
                    lemma_status_after_write(pre, post, i as int);
                }
            },
            None => {
                self.entries.push(LedgerEntry { key, status });
                proof {
                    let post = self.entries@;
                    let n = pre.len() as int;
                    assert forall|a: int, b: int| 0 <= a < b < post.len() implies post[a].key@
                        != post[b].key@ by {
                        if b < n {
                            assert(pre[a].key@ != pre[b].key@);
                        } else {
                            assert(pre[a].key@ != post[b].key@);
                        }
                    }
                    lemma_status_after_write(pre, post, n);
                }
            },
        }
    }

    /// Starts a payment under `key`: succeeds and records `Ongoing` exactly
    /// when nothing is in flight or completed under the id; fails with
    /// `DuplicateOrCompleted`, changing nothing, otherwise.
    pub fn begin(&mut self, key: Vec<u8>) -> (r: Result<(), RuntimeError>)
        requires
            old(self).wf(),
        ensures
            final(self).wf(),
            old(self).spec_status_of(key@).can_begin() ==> {
                &&& r is Ok
                &&& final(self).spec_status_of(key@) == Status::Ongoing
                &&& forall|other: Seq<u8>|
                    other != key@ ==> final(self).spec_status_of(other) == old(
                        self,
                    ).spec_status_of(other)
            },
            !old(self).spec_status_of(key@).can_begin() ==> {
                &&& r == Err::<(), RuntimeError>(RuntimeError::DuplicateOrCompleted)
                &&& *final(self) == *old(self)
            },
    {
        let current = self.status_of(&key);
        if current.begin_allowed() {
            self.set_status(key, Status::Ongoing);
            Ok(())
        } else {
            Err(RuntimeError::DuplicateOrCompleted)
        }
    }

    /// Records the remote outcome `Done` under `key`, unconditionally.
    pub fn complete(&mut self, key: Vec<u8>)
        requires
            old(self).wf(),
        ensures
            final(self).wf(),
            final(self).spec_status_of(key@) == Status::Done,
            forall|other: Seq<u8>|
                other != key@ ==> final(self).spec_status_of(other) == old(
                    self,
                ).spec_status_of(other),
    {
        self.set_status(key, Status::Done);
    }

    /// Records the remote outcome `Failed` under `key`, unconditionally.
    pub fn fail(&mut self, key: Vec<u8>)
        requires
            old(self).wf(),
        ensures
            final(self).wf(),
            final(self).spec_status_of(key@) == Status::Failed,
            forall|other: Seq<u8>|
                other != key@ ==> final(self).spec_status_of(other) == old(
                    self,
                ).spec_status_of(other),
    {
        self.set_status(key, Status::Failed);
    }
}

/// With unique keys, the status recorded under the key of entry `i` is the
/// status of entry `i` itself.
proof fn lemma_unique_key_status(s: Seq<LedgerEntry>, i: int)
    requires
        seq_keys_unique(s),
        0 <= i < s.len(),
    ensures
        seq_status_of(s, s[i].key@) == s[i].status,
{
    let id = s[i].key@;
    assert(seq_has_key(s, id));
    let w = choose|j: int| 0 <= j < s.len() && s[j].key@ == id;
    if w < i {
        assert(s[w].key@ != s[i].key@);
    } else if i < w {
        assert(s[i].key@ != s[w].key@);
    }
}

/// After writing an entry at position `i` — in place over the same key, or
/// pushed at the end under a key no other entry holds — the entries record
/// the written status under the written key and the old statuses elsewhere.
proof fn lemma_status_after_write(pre: Seq<LedgerEntry>, post: Seq<LedgerEntry>, i: int)
    requires
        seq_keys_unique(pre),
        seq_keys_unique(post),
        0 <= i < post.len(),
        i <= pre.len(),
        i < pre.len() ==> post.len() == pre.len() && pre[i].key@ == post[i].key@,
        i == pre.len() ==> post.len() == pre.len() + 1,
        forall|j: int| 0 <= j < pre.len() && j != i ==> post[j] == pre[j],
    ensures
        seq_status_of(post, post[i].key@) == post[i].status,
        forall|other: Seq<u8>|
            other != post[i].key@ ==> seq_status_of(post, other) == seq_status_of(pre, other),
{
    lemma_unique_key_status(post, i);
    let k = post[i].key@;
    assert forall|other: Seq<u8>| other != k implies seq_status_of(post, other) == seq_status_of(
        pre,
        other,
    ) by {
        if seq_has_key(post, other) {
            let j = choose|j: int| 0 <= j < post.len() && post[j].key@ == other;
            assert(j != i);
            assert(post[j] == pre[j]);
            assert(seq_has_key(pre, other));
            lemma_unique_key_status(pre, j);
            lemma_unique_key_status(post, j);
        } else {
            if seq_has_key(pre, other) {
                let j = choose|j: int| 0 <= j < pre.len() && pre[j].key@ == other;
                assert(j != i);
                assert(post[j] == pre[j]);
                assert(seq_has_key(post, other));
            }
        }
    }
}

} // verus!
