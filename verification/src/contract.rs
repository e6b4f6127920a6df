//! The ledger: claims and queries by identifier, over a record store.

use crate::record::{ClaimResult, UserRecord};
use crate::rules::{is_valid_identifier, valid_identifier};
use crate::store::{lookup, record_of, RecordStore};
use vstd::prelude::*;

verus! {

/// Why the ledger did not serve a request.
#[derive(Clone, Copy, Debug, PartialEq, Eq, Structural)]
pub enum LedgerError {
    /// The identifier is empty.
    InvalidInput,
    /// The store could not record the claim. Nothing was changed, and the
    /// caller may try again.
    StorageFailure,
}

/// The records after a claim by `username` at `now` has been served: unchanged
/// where the claim comes too soon, else with the user's new record in place.
pub open spec fn records_after_claim(
    records: Map<Seq<char>, UserRecord>,
    username: Seq<char>,
    now: u64,
) -> Map<Seq<char>, UserRecord> {
    let record = record_of(records, username);
    if record.too_soon(now) {
        records
    } else {
        records.insert(username, record.after_claim(username, now))
    }
}

/// Every record in `records` is valid.
pub open spec fn all_valid(records: Map<Seq<char>, UserRecord>) -> bool {
    forall|username: Seq<char>| #[trigger]
        records.dom().contains(username) ==> records[username].valid()
}

/// The streak ledger. It owns the store that holds the records, and nothing
/// else changes them.
pub struct StreakContract<S: RecordStore> {
    store: S,
}

impl<S: RecordStore> StreakContract<S> {
    /// The records of the ledger, by identifier.
    pub closed spec fn view(&self) -> Map<Seq<char>, UserRecord> {
        self.store.records()
    }

    /// A ledger over `store`, with the records that `store` holds.
    pub fn new(store: S) -> (ledger: Self)
        ensures
            ledger@ == store.records(),
    {
        StreakContract { store }
    }

    /// Gives the store back, with the records of the ledger.
    pub fn into_store(self) -> (store: S)
        ensures
            store.records() == self@,
    {
        self.store
    }

    /// Serves a claim by `username` at the unix time `now_ts`.
    ///
    /// An empty identifier is refused with [`LedgerError::InvalidInput`]. A
    /// claim that comes too soon is answered with `accepted == false`, a reward
    /// of zero and the streak as it stands. Any other claim is accepted: the
    /// user's streak, time of last claim and total are written together, and
    /// the answer carries the reward and the new streak. If the store cannot
    /// write, the claim fails with [`LedgerError::StorageFailure`]. Only an
    /// accepted claim changes the records, and only those of `username`.
    pub fn claim(&mut self, username: &str, now_ts: u64) -> (outcome: Result<
        ClaimResult,
        LedgerError,
    >)
        ensures
            !valid_identifier(username@) ==> outcome == Err::<ClaimResult, LedgerError>(
                LedgerError::InvalidInput,
            ) && final(self)@ == old(self)@,
            valid_identifier(username@) ==> match outcome {
                Ok(result) => {
                    &&& result == record_of(old(self)@, username@).claim_outcome(username@, now_ts)
                    &&& final(self)@ == records_after_claim(old(self)@, username@, now_ts)
                },
                Err(error) => {
                    &&& error == LedgerError::StorageFailure
                    &&& !record_of(old(self)@, username@).too_soon(now_ts)
                    &&& !S::never_fails()
                    &&& final(self)@ == old(self)@
                },
            },
            outcome matches Ok(result) ==> {
                &&& result.accepted ==> {
                    &&& result.reward >= 1
                    &&& result.streak >= 1
                    &&& record_of(final(self)@, username@).last_claim == now_ts
                    &&& record_of(final(self)@, username@).streak == result.streak
                }
                &&& !result.accepted ==> {
                    &&& result.reward == 0
                    &&& result.streak == record_of(old(self)@, username@).streak
                    &&& final(self)@ == old(self)@
                }
            },
            outcome is Err ==> final(self)@ == old(self)@,
            forall|other: Seq<char>|
                other != username@ ==> lookup(final(self)@, other) == lookup(old(self)@, other),
            record_of(final(self)@, username@).total_reward >= record_of(
                old(self)@,
                username@,
            ).total_reward,
            all_valid(old(self)@) ==> all_valid(final(self)@),
    {
        if !is_valid_identifier(username) {
            return Err(LedgerError::InvalidInput);
        }
        let mut record: UserRecord = match self.store.load(username) {
            Some(stored) => stored,
            None => UserRecord::new(),
        };
        let result: ClaimResult = record.claim(username, now_ts);
        if !result.accepted {
            return Ok(result);
        }
        match self.store.save(username, record) {
            Ok(()) => Ok(result),
            Err(_) => Err(LedgerError::StorageFailure),
        }
    }

    /// Reads the streak, the time of the last claim and the total of
    /// `username`, all zero for a user of whom nothing is recorded. An empty
    /// identifier is refused with [`LedgerError::InvalidInput`].
    pub fn get_streak(&self, username: &str) -> (found: Result<(u32, u64, i128), LedgerError>)
        ensures
            !valid_identifier(username@) ==> found == Err::<(u32, u64, i128), LedgerError>(
                LedgerError::InvalidInput,
            ),
            valid_identifier(username@) ==> found == Ok::<(u32, u64, i128), LedgerError>(
                (
                    record_of(self@, username@).streak,
                    record_of(self@, username@).last_claim,
                    record_of(self@, username@).total_reward,
                ),
            ),
    {
        if !is_valid_identifier(username) {
            return Err(LedgerError::InvalidInput);
        }
        match self.store.load(username) {
            Some(record) => Ok((record.streak, record.last_claim, record.total_reward)),
            None => Ok((0, 0, 0)),
        }
    }
}

} // verus!
