//! The session store: keyed records persisted by the entity.
//!
//! Records are keyed by `(subject, record kind, id)`.  The store is modelled
//! as an append-only log of entries; its abstract state is the map from keys
//! to the most recently stored record, and the log itself stays visible so
//! that history (such as every blinding nonce ever issued for a chain) can
//! be spoken about.

use vstd::prelude::*;
use crate::records::Record;
use crate::records::RecordKind;

verus! {

/// One stored entry.
pub struct StoreEntry {
    pub sub: String,
    pub kind: RecordKind,
    pub id: String,
    pub rec: Record,
}

impl StoreEntry {
    /// The abstract key of this entry.
    pub open spec fn key(self) -> (Seq<char>, RecordKind, Seq<char>) {
        (self.sub@, self.kind, self.id@)
    }
}

/// Whether an entry holds a transfer record.
pub open spec fn is_transfer_entry(e: StoreEntry) -> bool {
    e.kind is TransferState && e.rec is Transfer
}

/// The blinding nonce of a transfer entry.
pub open spec fn entry_nonce(e: StoreEntry) -> u64
    recommends
        is_transfer_entry(e),
{
    e.rec->Transfer_0.x1.v
}

/// Whether an entry holds a transfer record in the `Initiated` state.
pub open spec fn entry_initiated(e: StoreEntry) -> bool {
    is_transfer_entry(e) && e.rec->Transfer_0.status is Initiated
}

/// The entity's keyed record store.
pub struct SessionStore {
    entries: Vec<StoreEntry>,
}

impl SessionStore {
    /// The full log of entries, oldest first.
    pub closed spec fn log(self) -> Seq<StoreEntry> {
        self.entries@
    }

    /// The abstract map from keys to the latest record stored under each.
    pub open spec fn view(self) -> Map<(Seq<char>, RecordKind, Seq<char>), Record> {
        Self::map_of(self.log())
    }

    /// The map induced by a log: later entries win.
    pub open spec fn map_of(log: Seq<StoreEntry>) -> Map<
        (Seq<char>, RecordKind, Seq<char>),
        Record,
    >
        decreases log.len(),
    {
        if log.len() == 0 {
            Map::empty()
        } else {
            Self::map_of(log.drop_last()).insert(log.last().key(), log.last().rec)
        }
    }

    /// `newl` extends `oldl`, and none of the added entries is a transfer
    /// record.
    pub open spec fn appended_without_transfers(oldl: Seq<StoreEntry>, newl: Seq<StoreEntry>) -> bool {
        &&& oldl.len() <= newl.len()
        &&& (forall|j: int| 0 <= j < oldl.len() ==> newl[j] == oldl[j])
        &&& (forall|j: int| oldl.len() <= j < newl.len() ==> !(newl[j].kind is TransferState))
    }

    pub fn new() -> (r: SessionStore)
        ensures
            r.log() == Seq::<StoreEntry>::empty(),
            r@ == Map::<(Seq<char>, RecordKind, Seq<char>), Record>::empty(),
    {
        let r = SessionStore { entries: Vec::new() };
        proof {
            assert(r@ =~= Map::<(Seq<char>, RecordKind, Seq<char>), Record>::empty());
        }
        r
    }

    /// Store a record under `(sub, kind, id)`, replacing any earlier record
    /// under the same key.
    pub fn insert(&mut self, sub: String, kind: RecordKind, id: String, rec: Record)
        ensures
            final(self).log() == old(self).log().push(
                (StoreEntry { sub, kind, id, rec }),
            ),
            final(self)@ == old(self)@.insert((sub@, kind, id@), rec),
    {
        let e = StoreEntry { sub, kind, id, rec };
        proof {
            let lg = self.log().push(e);
            assert(lg.drop_last() =~= self.log());
        }
        self.entries.push(e);
    }

    /// Look up the latest record under `(sub, kind, id)`.
    pub fn get(&self, sub: &String, kind: RecordKind, id: &String) -> (r: Option<&Record>)
        ensures
            match r {
                Some(rec) => self@.contains_key((sub@, kind, id@)) && *rec == self@[
                    (sub@, kind, id@)
                ],
                None => !self@.contains_key((sub@, kind, id@)),
            },
    {
        let ghost key = (sub@, kind, id@);
        let mut i: usize = self.entries.len();
        while i > 0
            invariant
                i <= self.entries.len(),
                key == (sub@, kind, id@),
                forall|j: int| i <= j < self.entries.len() ==> self.entries@[j].key() != key,
            decreases i,
        {
            i = i - 1;
            let e = &self.entries[i];
            if e.kind == kind && e.sub.eq(sub) && e.id.eq(id) {
                proof {
                    assert(self.entries@[i as int].key() == key);
                    Self::lemma_map_of_found(self.log(), key, i as int);
                }
                return Some(&e.rec);
            }
        }
        proof {
            Self::lemma_map_of_absent(self.log(), key);
        }
        None
    }

    /// Whether some transfer record for `sub` anywhere in the log carries
    /// the blinding nonce `x`.
    pub open spec fn nonce_used(log: Seq<StoreEntry>, sub: Seq<char>, x: u64) -> bool {
        exists|j: int|
            0 <= j < log.len() && is_transfer_entry(log[j]) && log[j].sub@ == sub && entry_nonce(
                log[j],
            ) == x
    }

    /// Whether the blinding nonces of all initiated transfer records for
    /// `sub` are pairwise distinct: no nonce is ever issued twice.
    pub open spec fn initiated_nonces_distinct(log: Seq<StoreEntry>, sub: Seq<char>) -> bool {
        forall|i: int, j: int|
            (0 <= i < j < log.len() && entry_initiated(log[i]) && entry_initiated(log[j])
                && log[i].sub@ == sub && log[j].sub@ == sub) ==> entry_nonce(log[i]) != entry_nonce(
                log[j],
            )
    }

    /// Scan the whole log for a transfer record of `sub` carrying nonce `x`.
    pub fn nonce_is_used(&self, sub: &String, x: u64) -> (r: bool)
        ensures
            r == Self::nonce_used(self.log(), sub@, x),
    {
        let mut i: usize = 0;
        while i < self.entries.len()
            invariant
                i <= self.entries.len(),
                forall|j: int|
                    0 <= j < i ==> !(is_transfer_entry(self.entries@[j]) && self.entries@[j].sub@
                        == sub@ && entry_nonce(self.entries@[j]) == x),
            decreases self.entries.len() - i,
        {
            let e = &self.entries[i];
            if e.kind == RecordKind::TransferState && e.sub.eq(sub) {
                match &e.rec {
                    Record::Transfer(ts) => {
                        if ts.x1.v == x {
                            return true;
                        }
                    },
                    _ => {},
                }
            }
            i = i + 1;
        }
        false
    }

    /// If some entry at index `i` has key `k` and no later entry does, then
    /// the induced map holds that entry's record under `k`.
    proof fn lemma_map_of_found(log: Seq<StoreEntry>, k: (Seq<char>, RecordKind, Seq<char>), i: int)
        requires
            0 <= i < log.len(),
            log[i].key() == k,
            forall|j: int| i < j < log.len() ==> log[j].key() != k,
        ensures
            Self::map_of(log).contains_key(k),
            Self::map_of(log)[k] == log[i].rec,
        decreases log.len(),
    {
        if i == log.len() - 1 {
        } else {
            assert(log.drop_last()[i] == log[i]);
            Self::lemma_map_of_found(log.drop_last(), k, i);
        }
    }

    /// If no entry has key `k`, the induced map has no binding for `k`.
    proof fn lemma_map_of_absent(log: Seq<StoreEntry>, k: (Seq<char>, RecordKind, Seq<char>))
        requires
            forall|j: int| 0 <= j < log.len() ==> log[j].key() != k,
        ensures
            !Self::map_of(log).contains_key(k),
        decreases log.len(),
    {
        if log.len() > 0 {
            assert(forall|j: int|
                0 <= j < log.drop_last().len() ==> log.drop_last()[j] == log[j]);
            Self::lemma_map_of_absent(log.drop_last(), k);
        }
    }
}

} // verus!
