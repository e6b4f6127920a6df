use streak_ledger::{
    ClaimResult, LedgerError, MemoryStore, RecordStore, StoreError, StreakContract, UserRecord,
};

const DAY: u64 = 86_400;

fn ledger() -> StreakContract<MemoryStore> {
    StreakContract::new(MemoryStore::new())
}

fn accepted(reward: i128, streak: u32) -> Result<ClaimResult, LedgerError> {
    Ok(ClaimResult { reward, streak, accepted: true })
}

fn refused(streak: u32) -> Result<ClaimResult, LedgerError> {
    Ok(ClaimResult { reward: 0, streak, accepted: false })
}

/// A store whose reads work and whose writes all fail.
struct ReadOnlyStore {
    inner: MemoryStore,
    error: StoreError,
}

impl RecordStore for ReadOnlyStore {
    fn load(&self, username: &str) -> Option<UserRecord> {
        self.inner.load(username)
    }

    fn save(&mut self, _username: &str, _record: UserRecord) -> Result<(), StoreError> {
        Err(self.error)
    }
}

#[test]
fn rookie_claims_twice_then_misses_the_window() {
    let mut ledger = ledger();
    assert_eq!(ledger.claim("Rookie", 1000), accepted(2, 1));
    assert_eq!(ledger.get_streak("Rookie"), Ok((1, 1000, 2)));
    assert_eq!(ledger.claim("Rookie", 1000 + DAY), accepted(4, 2));
    assert_eq!(ledger.get_streak("Rookie"), Ok((2, 1000 + DAY, 6)));
    // More than 48 hours after the second claim.
    let third = (1000 + DAY) + 2 * DAY + 1;
    assert_eq!(ledger.claim("Rookie", third), accepted(2, 1));
    assert_eq!(ledger.get_streak("Rookie"), Ok((1, third, 8)));
}

#[test]
fn rookie_third_claim_a_day_and_a_second_after_the_second_continues() {
    let mut ledger = ledger();
    assert_eq!(ledger.claim("Rookie", 1000), accepted(2, 1));
    assert_eq!(ledger.claim("Rookie", 1000 + DAY), accepted(4, 2));
    // 24 hours and one second after the second claim: inside the 48 hour window.
    assert_eq!(ledger.claim("Rookie", 1000 + DAY * 2 + 1), accepted(8, 3));
}

#[test]
fn gap_of_more_than_two_days_resets_streak() {
    let mut ledger = ledger();
    assert_eq!(ledger.claim("Rookie", 1000), accepted(2, 1));
    assert_eq!(ledger.claim("Rookie", 1000 + DAY), accepted(4, 2));
    let late = 1000 + DAY + 2 * DAY + 1;
    assert_eq!(ledger.claim("Rookie", late), accepted(2, 1));
    assert_eq!(ledger.get_streak("Rookie"), Ok((1, late, 8)));
}

#[test]
fn dragon_slayer_gets_flat_bonus_after_doubling() {
    let mut ledger = ledger();
    assert_eq!(ledger.claim("DragonSlayer", 5000), accepted(2 + 42, 1));
    assert_eq!(ledger.claim("DragonSlayer", 5000 + DAY), accepted(4 + 42, 2));
    assert_eq!(ledger.claim("DragonSlayer", 5000 + DAY), refused(2));
    assert_eq!(ledger.get_streak("DragonSlayer"), Ok((2, 5000 + DAY, 90)));
}

#[test]
fn seventh_consecutive_claim_doubles_capped_base() {
    let mut ledger = ledger();
    let mut now = 10_000;
    let expected = [2, 4, 8, 16, 32, 64];
    for (day, reward) in expected.iter().enumerate() {
        assert_eq!(ledger.claim("Steady", now), accepted(*reward, day as u32 + 1));
        now += DAY;
    }
    assert_eq!(ledger.claim("Steady", now), accepted(256, 7));
    assert_eq!(ledger.get_streak("Steady"), Ok((7, now, 126 + 256)));
}

#[test]
fn claim_before_a_day_has_passed_is_too_soon() {
    let mut ledger = ledger();
    assert_eq!(ledger.claim("Eager", 7000), accepted(2, 1));
    assert_eq!(ledger.claim("Eager", 7000), refused(1));
    assert_eq!(ledger.claim("Eager", 7001), refused(1));
    assert_eq!(ledger.claim("Eager", 7000 + DAY - 1), refused(1));
    assert_eq!(ledger.get_streak("Eager"), Ok((1, 7000, 2)));
    assert_eq!(ledger.claim("Eager", 7000 + DAY), accepted(4, 2));
}

#[test]
fn claim_with_clock_moved_backward_is_too_soon() {
    let mut ledger = ledger();
    assert_eq!(ledger.claim("Traveller", 500_000), accepted(2, 1));
    assert_eq!(ledger.claim("Traveller", 499_999), refused(1));
    assert_eq!(ledger.claim("Traveller", 1), refused(1));
    assert_eq!(ledger.claim("Traveller", 0), refused(1));
    assert_eq!(ledger.get_streak("Traveller"), Ok((1, 500_000, 2)));
}

#[test]
fn claim_at_exactly_two_days_continues_streak() {
    let mut ledger = ledger();
    assert_eq!(ledger.claim("Edge", 3000), accepted(2, 1));
    assert_eq!(ledger.claim("Edge", 3000 + 2 * DAY), accepted(4, 2));
    assert_eq!(ledger.claim("Edge", 3000 + 4 * DAY + 1), accepted(2, 1));
}

#[test]
fn empty_identifier_is_invalid_input() {
    let mut ledger = ledger();
    assert_eq!(ledger.claim("", 1000), Err(LedgerError::InvalidInput));
    assert_eq!(ledger.get_streak(""), Err(LedgerError::InvalidInput));
    assert_eq!(ledger.get_streak("anyone"), Ok((0, 0, 0)));
}

#[test]
fn unknown_user_has_zero_record() {
    let mut ledger = ledger();
    assert_eq!(ledger.get_streak("Nobody"), Ok((0, 0, 0)));
    assert_eq!(ledger.claim("Somebody", 42), accepted(2, 1));
    assert_eq!(ledger.get_streak("Nobody"), Ok((0, 0, 0)));
    assert_eq!(ledger.get_streak("somebody"), Ok((0, 0, 0)));
    assert_eq!(ledger.get_streak("Somebody"), Ok((1, 42, 2)));
}

#[test]
fn identifiers_are_case_sensitive_and_kept_apart() {
    let mut ledger = ledger();
    assert_eq!(ledger.claim("Ann", 100), accepted(2, 1));
    assert_eq!(ledger.claim("ann", 100), accepted(2, 1));
    assert_eq!(ledger.claim("Ann ", 100), accepted(2, 1));
    assert_eq!(ledger.claim("Ann", 100 + DAY), accepted(4, 2));
    assert_eq!(ledger.get_streak("Ann"), Ok((2, 100 + DAY, 6)));
    assert_eq!(ledger.get_streak("ann"), Ok((1, 100, 2)));
    assert_eq!(ledger.get_streak("Ann "), Ok((1, 100, 2)));
}

#[test]
fn failed_write_is_storage_failure_and_changes_nothing() {
    let mut inner = MemoryStore::new();
    let seeded = UserRecord { streak: 3, last_claim: 1000, total_reward: 14 };
    assert_eq!(inner.save("Saver", seeded), Ok(()));
    let store = ReadOnlyStore { inner, error: StoreError::Unavailable };
    let mut ledger = StreakContract::new(store);
    assert_eq!(ledger.claim("Saver", 1000 + DAY), Err(LedgerError::StorageFailure));
    assert_eq!(ledger.get_streak("Saver"), Ok((3, 1000, 14)));
    assert_eq!(ledger.claim("Newcomer", 50), Err(LedgerError::StorageFailure));
    assert_eq!(ledger.get_streak("Newcomer"), Ok((0, 0, 0)));
    let store = ledger.into_store();
    assert_eq!(store.inner.load("Saver"), Some(seeded));
    assert_eq!(store.inner.load("Newcomer"), None);
}

#[test]
fn write_conflict_is_storage_failure() {
    let store = ReadOnlyStore { inner: MemoryStore::new(), error: StoreError::Conflict };
    let mut ledger = StreakContract::new(store);
    assert_eq!(ledger.claim("Racer", 77), Err(LedgerError::StorageFailure));
}

#[test]
fn refused_claim_needs_no_write() {
    let mut inner = MemoryStore::new();
    let seeded = UserRecord { streak: 3, last_claim: 1000, total_reward: 14 };
    assert_eq!(inner.save("Saver", seeded), Ok(()));
    let store = ReadOnlyStore { inner, error: StoreError::Unavailable };
    let mut ledger = StreakContract::new(store);
    assert_eq!(ledger.claim("Saver", 1000 + DAY - 1), refused(3));
    assert_eq!(ledger.claim("", 1000 + DAY), Err(LedgerError::InvalidInput));
}

#[test]
fn total_reward_never_decreases_over_many_claims() {
    let mut ledger = ledger();
    let mut now = 1;
    let mut last_total = 0;
    let mut accepted_claims = 0;
    for step in 0..200u64 {
        // Steps of 7, 25, 31 and 50 hours: some too soon, some in the window, some late.
        let hours = [7, 25, 31, 50][(step % 4) as usize];
        now += hours * 3600;
        let result = ledger.claim("Walker", now).unwrap();
        let (_, last_claim, total) = ledger.get_streak("Walker").unwrap();
        if result.accepted {
            accepted_claims += 1;
            assert!(result.reward >= 1);
            assert!(result.streak >= 1);
            assert_eq!(total, last_total + result.reward);
            assert_eq!(last_claim, now);
        } else {
            assert_eq!(result.reward, 0);
            assert_eq!(total, last_total);
            assert!(last_claim < now);
        }
        assert!(total >= last_total);
        last_total = total;
    }
    assert!(accepted_claims > 50);
}

#[test]
fn many_claims_at_one_instant_accept_exactly_one() {
    let mut ledger = ledger();
    let mut accepted_claims = 0;
    let mut refused_claims = 0;
    for _ in 0..25 {
        let result = ledger.claim("Crowd", 123_456).unwrap();
        if result.accepted {
            accepted_claims += 1;
        } else {
            refused_claims += 1;
            assert_eq!(result, ClaimResult { reward: 0, streak: 1, accepted: false });
        }
    }
    assert_eq!(accepted_claims, 1);
    assert_eq!(refused_claims, 24);
    assert_eq!(ledger.get_streak("Crowd"), Ok((1, 123_456, 2)));
}

#[test]
fn claims_at_instant_zero_look_like_first_claims() {
    let mut ledger = ledger();
    assert_eq!(ledger.claim("Epoch", 0), accepted(2, 1));
    assert_eq!(ledger.get_streak("Epoch"), Ok((1, 0, 2)));
    assert_eq!(ledger.claim("Epoch", 0), accepted(2, 1));
    assert_eq!(ledger.get_streak("Epoch"), Ok((1, 0, 4)));
}

#[test]
fn claims_of_one_user_leave_others_alone() {
    let mut ledger = ledger();
    assert_eq!(ledger.claim("Left", 10), accepted(2, 1));
    assert_eq!(ledger.claim("Right", 20), accepted(2, 1));
    assert_eq!(ledger.claim("Left", 10 + DAY), accepted(4, 2));
    assert_eq!(ledger.get_streak("Right"), Ok((1, 20, 2)));
    assert_eq!(ledger.get_streak("Left"), Ok((2, 10 + DAY, 6)));
}

#[test]
fn record_claim_matches_ledger_claim() {
    let mut record = UserRecord::new();
    assert_eq!(record, UserRecord { streak: 0, last_claim: 0, total_reward: 0 });
    assert_eq!(record, UserRecord::default());
    assert!(!record.is_too_soon(0));
    assert_eq!(
        record.claim("UnicornDragon", 900),
        ClaimResult { reward: 44, streak: 1, accepted: true }
    );
    assert_eq!(record, UserRecord { streak: 1, last_claim: 900, total_reward: 44 });
    assert!(record.is_too_soon(900 + DAY - 1));
    assert!(record.is_too_soon(899));
    assert!(!record.is_too_soon(900 + DAY));
    assert_eq!(record.next_streak(900 + DAY), 2);
    assert_eq!(record.next_streak(900 + 2 * DAY), 2);
    assert_eq!(record.next_streak(900 + 2 * DAY + 1), 1);
    assert_eq!(
        record.claim("UnicornDragon", 900 + DAY - 1),
        ClaimResult { reward: 0, streak: 1, accepted: false }
    );
    assert_eq!(record, UserRecord { streak: 1, last_claim: 900, total_reward: 44 });
}

#[test]
fn total_reward_saturates() {
    let mut record = UserRecord { streak: 5, last_claim: 1000, total_reward: i128::MAX - 10 };
    assert_eq!(
        record.claim("Whale", 1000 + DAY),
        ClaimResult { reward: 64, streak: 6, accepted: true }
    );
    assert_eq!(record, UserRecord { streak: 6, last_claim: 1000 + DAY, total_reward: i128::MAX });
    let mut exact = UserRecord { streak: 5, last_claim: 1000, total_reward: i128::MAX - 64 };
    exact.claim("Whale", 1000 + DAY);
    assert_eq!(exact.total_reward, i128::MAX);
    let mut below = UserRecord { streak: 5, last_claim: 1000, total_reward: i128::MAX - 65 };
    below.claim("Whale", 1000 + DAY);
    assert_eq!(below.total_reward, i128::MAX - 1);
}

#[test]
fn streak_saturates_at_its_largest_value() {
    let mut record = UserRecord { streak: u32::MAX, last_claim: 1000, total_reward: 0 };
    assert_eq!(
        record.claim("Eternal", 1000 + DAY),
        ClaimResult { reward: 1024, streak: u32::MAX, accepted: true }
    );
    let mut almost = UserRecord { streak: u32::MAX - 1, last_claim: 1000, total_reward: 0 };
    assert_eq!(almost.claim("Eternal", 1000 + DAY).streak, u32::MAX);
}

#[test]
fn claim_near_the_end_of_time_does_not_overflow() {
    let mut record = UserRecord { streak: 2, last_claim: u64::MAX - 10, total_reward: 6 };
    assert_eq!(
        record.claim("Late", u64::MAX),
        ClaimResult { reward: 0, streak: 2, accepted: false }
    );
    let mut old = UserRecord { streak: 2, last_claim: u64::MAX - DAY, total_reward: 6 };
    assert_eq!(old.claim("Late", u64::MAX), ClaimResult { reward: 8, streak: 3, accepted: true });
    let mut older = UserRecord { streak: 2, last_claim: 1, total_reward: 6 };
    assert_eq!(older.claim("Late", u64::MAX), ClaimResult { reward: 2, streak: 1, accepted: true });
}

#[test]
fn milestones_fourteen_and_thirty() {
    let mut at_13 = UserRecord { streak: 13, last_claim: 1000, total_reward: 0 };
    assert_eq!(
        at_13.claim("Keeper", 1000 + DAY),
        ClaimResult { reward: 3072, streak: 14, accepted: true }
    );
    let mut at_29 = UserRecord { streak: 29, last_claim: 1000, total_reward: 0 };
    assert_eq!(
        at_29.claim("Keeper", 1000 + DAY),
        ClaimResult { reward: 5120, streak: 30, accepted: true }
    );
    let mut dragon_29 = UserRecord { streak: 29, last_claim: 1000, total_reward: 0 };
    assert_eq!(
        dragon_29.claim("KeeperDragon", 1000 + DAY),
        ClaimResult { reward: 5162, streak: 30, accepted: true }
    );
    let mut at_30 = UserRecord { streak: 30, last_claim: 1000, total_reward: 0 };
    assert_eq!(
        at_30.claim("Keeper", 1000 + DAY),
        ClaimResult { reward: 1024, streak: 31, accepted: true }
    );
}
