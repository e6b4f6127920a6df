//! Where the ledger keeps its records.

use crate::record::UserRecord;
use vstd::prelude::*;

verus! {

/// Why a storage backend could not carry out a write.
#[derive(Clone, Copy, Debug, PartialEq, Eq, Structural)]
pub enum StoreError {
    /// The backend could not be reached.
    Unavailable,
    /// Another writer got in the way of this write.
    Conflict,
}

/// The record stored under `username` in `records`, if there is one.
pub open spec fn lookup(records: Map<Seq<char>, UserRecord>, username: Seq<char>) -> Option<
    UserRecord,
> {
    if records.dom().contains(username) {
        Some(records[username])
    } else {
        None
    }
}

/// The record of `username` in `records`: the stored one, or the zero record
/// for a user of whom nothing is stored.
pub open spec fn record_of(records: Map<Seq<char>, UserRecord>, username: Seq<char>) -> UserRecord {
    if records.dom().contains(username) {
        records[username]
    } else {
        UserRecord::zero()
    }
}

/// A key-value store of user records, keyed by identifier.
///
/// A record is read and written whole, so no reader ever sees part of a write.
/// A write that fails leaves the store as it was.
///
/// A store that is to be reasoned about says what it holds by defining
/// [`RecordStore::records`], and proves `load` and `save` against it, as
/// [`MemoryStore`] does. A store written outside the verifier implements
/// `load` and `save` alone; the contracts below are then what its author
/// answers for.
pub trait RecordStore {
    /// The records the store holds. A store that does not say what it holds
    /// is taken to hold nothing.
    open spec fn records(&self) -> Map<Seq<char>, UserRecord> {
        Map::empty()
    }

    /// Whether every write to a store of this type succeeds. A store that
    /// does not say so may fail.
    open spec fn never_fails() -> bool {
        false
    }

    /// Reads the record stored under `username`.
    fn load(&self, username: &str) -> (found: Option<UserRecord>)
        ensures
            found == lookup(self.records(), username@),
    ;

    /// Stores `record` under `username`, in place of any record stored there.
    fn save(&mut self, username: &str, record: UserRecord) -> (saved: Result<(), StoreError>)
        ensures
            saved is Ok ==> final(self).records() == old(self).records().insert(username@, record),
            saved is Err ==> final(self).records() == old(self).records(),
            Self::never_fails() ==> saved is Ok,
    ;
}

/// One entry of a [`MemoryStore`].
struct Account {
    user: String,
    record: UserRecord,
}

/// A store that keeps its records in memory and never fails.
pub struct MemoryStore {
    accounts: Vec<Account>,
}

impl MemoryStore {
    /// No identifier has two entries.
    #[verifier::type_invariant]
    spec fn distinct_users(self) -> bool {
        forall|i: int, j: int|
            0 <= i < j < self.accounts@.len() ==> self.accounts@[i].user@ != self.accounts@[j].user@
    }

    /// Entry `at` is the entry of `username`.
    spec fn is_slot_of(self, username: Seq<char>, at: int) -> bool {
        0 <= at < self.accounts@.len() && self.accounts@[at].user@ == username
    }

    /// The index of the entry of `username`, where it has one.
    spec fn slot_of(self, username: Seq<char>) -> int {
        choose|at: int| self.is_slot_of(username, at)
    }

    /// The records held, by identifier.
    pub closed spec fn view(self) -> Map<Seq<char>, UserRecord> {
        Map::new(
            |username: Seq<char>| exists|at: int| self.is_slot_of(username, at),
            |username: Seq<char>| self.accounts@[self.slot_of(username)].record,
        )
    }

    /// An empty store.
    pub fn new() -> (store: Self)
        ensures
            store@ == Map::<Seq<char>, UserRecord>::empty(),
    {
        let store = MemoryStore { accounts: Vec::new() };
        assert(store@ =~= Map::<Seq<char>, UserRecord>::empty());
        store
    }

    /// The index of the entry of `username`, if it has one.
    fn find(&self, username: &str) -> (found: Option<usize>)
        ensures
            match found {
                Some(at) => self.is_slot_of(username@, at as int),
                None => forall|at: int| !self.is_slot_of(username@, at),
            },
    {
        let key: String = username.to_owned();
        let mut at: usize = 0;
        while at < self.accounts.len()
            invariant
                key@ == username@,
                forall|k: int| 0 <= k < at ==> !self.is_slot_of(username@, k),
            decreases self.accounts.len() - at,
        {
            if self.accounts[at].user == key {
                return Some(at);
            }
            at += 1;
        }
        None
    }
}

impl RecordStore for MemoryStore {
    open spec fn records(&self) -> Map<Seq<char>, UserRecord> {
        self@
    }

    open spec fn never_fails() -> bool {
        true
    }

    fn load(&self, username: &str) -> (found: Option<UserRecord>) {
        proof {
            use_type_invariant(self);
        }
        match self.find(username) {
            Some(at) => {
                assert(self.is_slot_of(username@, self.slot_of(username@)));
                Some(self.accounts[at].record)
            },
            None => None,
        }
    }

    fn save(&mut self, username: &str, record: UserRecord) -> (saved: Result<(), StoreError>) {
        proof {
            use_type_invariant(&*self);
        }
        let ghost before = *self;
        let found = self.find(username);
        let mut accounts: Vec<Account> = Vec::new();
        std::mem::swap(&mut accounts, &mut self.accounts);
        match found {
            Some(at) => {
                accounts[at].record = record;
            },
            None => {
                accounts.push(Account { user: username.to_owned(), record });
            },
        }
        proof {
            let entries = before.accounts@;
            assert(forall|k: int|
                0 <= k < entries.len() ==> #[trigger] accounts@[k].user@ == entries[k].user@);
            assert forall|i: int, j: int| 0 <= i < j < accounts@.len() implies accounts@[i].user@
                != accounts@[j].user@ by {
                if j >= entries.len() {
                    assert(!before.is_slot_of(username@, i));
                }
            }
        }
        self.accounts = accounts;
        proof {
            let after = *self;
            let entries = before.accounts@;
            let target = before@.insert(username@, record);
            let written: int = match found {
                Some(at) => at as int,
                None => entries.len() as int,
            };
            assert(after.is_slot_of(username@, written));
            assert(after.accounts@[written].record == record);
            assert forall|u: Seq<char>| #[trigger]
                after@.dom().contains(u) <==> target.dom().contains(u) by {
                if after@.dom().contains(u) && u != username@ {
                    let k: int = after.slot_of(u);
                    assert(after.is_slot_of(u, k));
                    assert(before.is_slot_of(u, k));
                }
                if before@.dom().contains(u) {
                    let k: int = before.slot_of(u);
                    assert(before.is_slot_of(u, k));
                    assert(after.is_slot_of(u, k));
                }
            }
            assert forall|u: Seq<char>| #[trigger] after@.dom().contains(u) implies after@[u]
                == target[u] by {
                let k: int = after.slot_of(u);
                assert(after.is_slot_of(u, k));
                if u == username@ {
                    assert(k == written);
                } else {
                    assert(before.is_slot_of(u, k));
                    let b: int = before.slot_of(u);
                    assert(before.is_slot_of(u, b));
                    assert(b == k);
                }
            }
            assert(after@ =~= target);
        }
        Ok(())
    }
}

} // verus!
