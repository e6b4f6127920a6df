//! What holds of every claim, proved over the definitions that the contracts use.

use crate::contract::records_after_claim;
use crate::record::UserRecord;
use crate::rules::{
    spec_base_reward, spec_identifier_bonus, spec_milestone_multiplier, spec_reward,
};
use crate::store::record_of;
use vstd::arithmetic::power2::{lemma2_to64, lemma_pow2_strictly_increases, pow2};
use vstd::prelude::*;

verus! {

/// How many of `count` claims by `username`, all made at `now` and served one
/// after the other starting from `record`, are accepted.
pub open spec fn accepted_among(record: UserRecord, username: Seq<char>, now: u64, count: nat) -> nat
    decreases count,
{
    if count == 0 {
        0
    } else {
        let rest = accepted_among(
            record.after_claim(username, now),
            username,
            now,
            (count - 1) as nat,
        );
        if record.too_soon(now) {
            rest
        } else {
            1 + rest
        }
    }
}

/// The record after `username` has made one claim at each of `times`, in
/// their order, starting from `record`.
pub open spec fn after_claims(record: UserRecord, username: Seq<char>, times: Seq<u64>) -> UserRecord
    decreases times.len(),
{
    if times.len() == 0 {
        record
    } else {
        after_claims(record, username, times.drop_last()).after_claim(username, times.last())
    }
}

/// For a user who has claimed before, the claim interval alone decides
/// acceptance. A claim made less than 24 hours after the last accepted one is
/// refused: the reward is zero and streak and record stay as they are. A claim
/// made 24 hours after it or later is accepted.
pub proof fn claim_interval_decides_acceptance(record: UserRecord, username: Seq<char>, now: u64)
    requires
        record.last_claim != 0,
    ensures
        now < record.last_claim + 86_400 ==> {
            &&& !record.claim_outcome(username, now).accepted
            &&& record.claim_outcome(username, now).reward == 0
            &&& record.claim_outcome(username, now).streak == record.streak
            &&& record.after_claim(username, now) == record
        },
        now >= record.last_claim + 86_400 ==> {
            &&& record.claim_outcome(username, now).accepted
            &&& record.after_claim(username, now).last_claim == now
        },
{
}

/// A user who never claimed is accepted at any time, with a streak of 1.
pub proof fn first_claim_is_accepted(username: Seq<char>, now: u64)
    ensures
        UserRecord::zero().claim_outcome(username, now).accepted,
        UserRecord::zero().claim_outcome(username, now).streak == 1,
        UserRecord::zero().after_claim(username, now).streak == 1,
{
}

/// An accepted claim made at most 48 hours after the last one adds exactly one
/// to the streak, as long as the streak has not reached the largest value it
/// can hold.
pub proof fn claim_within_window_extends_streak(record: UserRecord, username: Seq<char>, now: u64)
    requires
        record.last_claim != 0,
        record.streak < u32::MAX,
        record.last_claim + 86_400 <= now <= record.last_claim + 48 * 3600,
    ensures
        record.claim_outcome(username, now).accepted,
        record.claim_outcome(username, now).streak == record.streak + 1,
        record.after_claim(username, now).streak == record.streak + 1,
{
}

/// A streak that has reached the largest value it can hold stays there.
pub proof fn full_streak_does_not_wrap(record: UserRecord, username: Seq<char>, now: u64)
    requires
        record.last_claim != 0,
        record.streak == u32::MAX,
        record.last_claim + 86_400 <= now <= record.last_claim + 48 * 3600,
    ensures
        record.after_claim(username, now).streak == u32::MAX,
{
}

/// A claim made more than 48 hours after the last one starts the streak anew at 1.
pub proof fn claim_after_window_restarts_streak(record: UserRecord, username: Seq<char>, now: u64)
    requires
        record.last_claim != 0,
        now > record.last_claim + 48 * 3600,
    ensures
        record.claim_outcome(username, now).accepted,
        record.claim_outcome(username, now).streak == 1,
        record.after_claim(username, now).streak == 1,
{
}

/// A streak of zero is the mark of a user who never claimed: once a claim has
/// been made on a valid record, accepted or not, the streak is at least 1.
pub proof fn streak_is_positive_after_any_claim(record: UserRecord, username: Seq<char>, now: u64)
    requires
        record.valid(),
    ensures
        record.after_claim(username, now).streak >= 1,
        record.after_claim(username, now).valid(),
{
    reward_is_bounded(record.streak_after(now) as nat, username);
}

/// The time of the last claim changes if and only if a claim is accepted at
/// another time than it.
pub proof fn last_claim_moves_only_on_acceptance(record: UserRecord, username: Seq<char>, now: u64)
    ensures
        record.claim_outcome(username, now).accepted ==> record.after_claim(
            username,
            now,
        ).last_claim == now,
        !record.claim_outcome(username, now).accepted ==> record.after_claim(
            username,
            now,
        ).last_claim == record.last_claim,
{
}

/// The base reward at a streak is two to the power of the streak or 1024,
/// whichever is less: the power itself below a streak of 10, and 1024 from
/// there on.
pub proof fn base_reward_is_capped_power_of_two(streak: nat)
    ensures
        spec_base_reward(streak) == vstd::math::min(pow2(streak) as int, 1024),
        1 <= spec_base_reward(streak) <= 1024,
        streak < 10 ==> spec_base_reward(streak) == pow2(streak),
        streak >= 10 ==> spec_base_reward(streak) == 1024,
{
    lemma2_to64();
    if streak < 10 {
        lemma_pow2_strictly_increases(streak, 10);
    }
    if streak > 10 {
        lemma_pow2_strictly_increases(10, streak);
    }
    if streak > 0 {
        lemma_pow2_strictly_increases(0, streak);
    }
}

/// Before the identifier bonus, the reward is twice the base reward at a
/// streak of 7, three times at 14, five times at 30, and the base reward
/// itself at every other streak.
pub proof fn milestones_multiply_base_reward(streak: nat, username: Seq<char>)
    ensures
        spec_reward(streak, username) - spec_identifier_bonus(username) == spec_base_reward(streak)
            * spec_milestone_multiplier(streak),
        streak == 7 ==> spec_reward(streak, username) - spec_identifier_bonus(username) == 2
            * spec_base_reward(streak) == 256,
        streak == 14 ==> spec_reward(streak, username) - spec_identifier_bonus(username) == 3
            * spec_base_reward(streak) == 3072,
        streak == 30 ==> spec_reward(streak, username) - spec_identifier_bonus(username) == 5
            * spec_base_reward(streak) == 5120,
        streak != 7 && streak != 14 && streak != 30 ==> spec_reward(streak, username)
            - spec_identifier_bonus(username) == spec_base_reward(streak),
{
    base_reward_is_capped_power_of_two(streak);
    lemma2_to64();
}

/// Every reward of an accepted claim lies between 1 and 5162.
pub proof fn reward_is_bounded(streak: nat, username: Seq<char>)
    ensures
        1 <= spec_reward(streak, username) <= 5162,
        spec_identifier_bonus(username) == 0 || spec_identifier_bonus(username) == 42,
{
    base_reward_is_capped_power_of_two(streak);
    let base = spec_base_reward(streak);
    let factor = spec_milestone_multiplier(streak);
    assert(1 <= base * factor <= 5120) by (nonlinear_arith)
        requires
            1 <= base <= 1024,
            1 <= factor <= 5,
    ;
}

/// No claim lowers a total: an accepted claim leaves it at least as large as
/// it was, and a refused claim leaves it as it was.
pub proof fn total_reward_never_decreases(record: UserRecord, username: Seq<char>, now: u64)
    ensures
        record.after_claim(username, now).total_reward >= record.total_reward,
        !record.claim_outcome(username, now).accepted ==> record.after_claim(
            username,
            now,
        ).total_reward == record.total_reward,
        record.claim_outcome(username, now).accepted && record.total_reward + record.reward_at(
            username,
            now,
        ) <= i128::MAX ==> record.after_claim(username, now).total_reward == record.total_reward
            + record.claim_outcome(username, now).reward,
{
    reward_is_bounded(record.streak_after(now) as nat, username);
}

/// Along any history of claims the total only grows: after the first `count`
/// claims of `times` it is at least what it was after the first `earlier`
/// of them, whichever of the claims were accepted.
pub proof fn total_grows_along_any_history(
    record: UserRecord,
    username: Seq<char>,
    times: Seq<u64>,
    earlier: int,
    count: int,
)
    requires
        0 <= earlier <= count <= times.len(),
    ensures
        after_claims(record, username, times.take(count)).total_reward >= after_claims(
            record,
            username,
            times.take(earlier),
        ).total_reward,
    decreases count - earlier,
{
    if earlier < count {
        let shorter = times.take(count - 1);
        let longer = times.take(count);
        assert(longer.drop_last() =~= shorter);
        assert(longer.last() == times[count - 1]);
        total_grows_along_any_history(record, username, times, earlier, count - 1);
        total_reward_never_decreases(
            after_claims(record, username, shorter),
            username,
            times[count - 1],
        );
    }
}

/// After a claim was accepted at `now`, a further claim at the same instant is
/// refused. This is not so at the instant zero, which a record cannot tell
/// from no claim at all.
pub proof fn accepted_claim_blocks_same_instant(record: UserRecord, username: Seq<char>, now: u64)
    requires
        now != 0,
        !record.too_soon(now),
    ensures
        record.after_claim(username, now).too_soon(now),
{
}

/// Of any number of claims that one user makes at the same instant, served
/// one after the other, exactly one is accepted where the user is eligible at
/// that instant, and none where the user is not. The instant zero is left out.
pub proof fn same_instant_claims_accept_once(
    record: UserRecord,
    username: Seq<char>,
    now: u64,
    count: nat,
)
    requires
        now != 0,
        count >= 1,
    ensures
        !record.too_soon(now) ==> accepted_among(record, username, now, count) == 1,
        record.too_soon(now) ==> accepted_among(record, username, now, count) == 0,
    decreases count,
{
    if count > 1 {
        same_instant_claims_accept_once(
            record.after_claim(username, now),
            username,
            now,
            (count - 1) as nat,
        );
    } else {
        assert(accepted_among(record.after_claim(username, now), username, now, 0) == 0);
    }
}

/// No claim deletes a record, and a record comes to be with the user's first
/// accepted claim: after a claim the ledger holds a record for everyone it
/// held one for, and for the claimer if the claim was accepted.
pub proof fn records_are_never_deleted(
    records: Map<Seq<char>, UserRecord>,
    username: Seq<char>,
    now: u64,
    other: Seq<char>,
)
    ensures
        records.dom().contains(other) ==> records_after_claim(records, username, now).dom().contains(
            other,
        ),
        records_after_claim(records, username, now).dom().contains(other) <==> records.dom().contains(
            other,
        ) || (other == username && record_of(records, username).claim_outcome(
            username,
            now,
        ).accepted),
{
}

/// A served claim changes the records of no other user, and lowers no total.
pub proof fn claim_touches_one_user(
    records: Map<Seq<char>, UserRecord>,
    username: Seq<char>,
    now: u64,
    other: Seq<char>,
)
    ensures
        record_of(records_after_claim(records, username, now), username) == record_of(
            records,
            username,
        ).after_claim(username, now),
        other != username ==> record_of(records_after_claim(records, username, now), other)
            == record_of(records, other),
        record_of(records_after_claim(records, username, now), other).total_reward >= record_of(
            records,
            other,
        ).total_reward,
{
    total_reward_never_decreases(record_of(records, username), username, now);
}

} // verus!
