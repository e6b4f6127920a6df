//! Per-user state and the claim transition on it.

use crate::rules::{reward, spec_reward, CLAIM_INTERVAL, STREAK_WINDOW};
use vstd::prelude::*;

verus! {

/// What the ledger remembers about one user.
///
/// A user who never claimed has the zero record. `last_claim` is a unix
/// time in seconds; zero means that no claim has been made.
#[derive(Clone, Copy, Debug, PartialEq, Eq, Structural)]
pub struct UserRecord {
    /// Number of consecutive claims, each within the streak window of the one before.
    pub streak: u32,
    /// When the last accepted claim was made, or zero.
    pub last_claim: u64,
    /// Sum of all rewards granted so far; it stops at the largest value it can hold.
    pub total_reward: i128,
}

/// The answer to a claim.
///
/// A refused claim, one made too soon after the last accepted one, has
/// `accepted == false`, a reward of zero and the streak as it stood.
#[derive(Clone, Copy, Debug, PartialEq, Eq, Structural)]
pub struct ClaimResult {
    /// The amount granted by this claim.
    pub reward: i128,
    /// The user's streak after this claim.
    pub streak: u32,
    /// Whether the claim was accepted and recorded.
    pub accepted: bool,
}

impl UserRecord {
    /// The record of a user who never claimed.
    pub open spec fn zero() -> UserRecord {
        UserRecord { streak: 0, last_claim: 0, total_reward: 0 }
    }

    /// What holds of every record that claims have led to: the total is not
    /// below zero, and a streak of zero goes with no claim and no reward.
    pub open spec fn valid(self) -> bool {
        &&& self.total_reward >= 0
        &&& self.streak == 0 ==> self.last_claim == 0 && self.total_reward == 0
    }

    /// A claim at `now` comes too soon: an earlier claim exists and fewer than
    /// [`CLAIM_INTERVAL`] seconds lie between it and `now`. A `now` that lies
    /// before the earlier claim is too soon as well.
    pub open spec fn too_soon(self, now: u64) -> bool {
        self.last_claim != 0 && now < self.last_claim + CLAIM_INTERVAL
    }

    /// An accepted claim at `now` extends the streak: an earlier claim exists
    /// and `now` is at most [`STREAK_WINDOW`] seconds after it.
    pub open spec fn extends_streak(self, now: u64) -> bool {
        self.last_claim != 0 && now <= self.last_claim + STREAK_WINDOW
    }

    /// The streak after an accepted claim at `now`: one more than before, up to
    /// the largest streak a record can hold, or 1 where the streak starts anew.
    pub open spec fn streak_after(self, now: u64) -> u32 {
        if self.extends_streak(now) {
            if self.streak < u32::MAX {
                (self.streak + 1) as u32
            } else {
                u32::MAX
            }
        } else {
            1
        }
    }

    /// The reward of an accepted claim by `username` at `now`.
    pub open spec fn reward_at(self, username: Seq<char>, now: u64) -> int {
        spec_reward(self.streak_after(now) as nat, username)
    }

    /// The total after an accepted claim by `username` at `now`: the old total
    /// plus the reward, or the largest total a record can hold if that is less.
    pub open spec fn total_after(self, username: Seq<char>, now: u64) -> i128 {
        if self.total_reward + self.reward_at(username, now) > i128::MAX {
            i128::MAX
        } else {
            (self.total_reward + self.reward_at(username, now)) as i128
        }
    }

    /// The record after a claim by `username` at `now`: unchanged where the
    /// claim comes too soon, else with the new streak, `now` as the time of the
    /// last claim, and the new total.
    pub open spec fn after_claim(self, username: Seq<char>, now: u64) -> UserRecord {
        if self.too_soon(now) {
            self
        } else {
            UserRecord {
                streak: self.streak_after(now),
                last_claim: now,
                total_reward: self.total_after(username, now),
            }
        }
    }

    /// The answer to a claim by `username` at `now`.
    pub open spec fn claim_outcome(self, username: Seq<char>, now: u64) -> ClaimResult {
        if self.too_soon(now) {
            ClaimResult { reward: 0, streak: self.streak, accepted: false }
        } else {
            ClaimResult {
                reward: self.reward_at(username, now) as i128,
                streak: self.streak_after(now),
                accepted: true,
            }
        }
    }

    /// The record of a user who never claimed.
    pub fn new() -> (record: Self)
        ensures
            record == Self::zero(),
            record.valid(),
    {
        UserRecord { streak: 0, last_claim: 0, total_reward: 0 }
    }

    /// Whether a claim at `now` would be refused as too soon.
    pub fn is_too_soon(&self, now: u64) -> (refused: bool)
        ensures
            refused == self.too_soon(now),
    {
        self.last_claim != 0 && (now < self.last_claim || now - self.last_claim < CLAIM_INTERVAL)
    }

    /// The streak that an accepted claim at `now` leads to.
    pub fn next_streak(&self, now: u64) -> (streak: u32)
        ensures
            streak == self.streak_after(now),
            streak >= 1,
    {
        if self.last_claim != 0 && (now <= self.last_claim || now - self.last_claim
            <= STREAK_WINDOW) {
            self.streak.saturating_add(1)
        } else {
            1
        }
    }

    /// Applies a claim by `username` at `now` to this record.
    ///
    /// A claim that comes too soon is refused and leaves the record as it is.
    /// An accepted claim sets the streak, the time of the last claim and the
    /// total together.
    pub fn claim(&mut self, username: &str, now: u64) -> (result: ClaimResult)
        ensures
            result == old(self).claim_outcome(username@, now),
            *final(self) == old(self).after_claim(username@, now),
            result.accepted <==> !old(self).too_soon(now),
            result.accepted ==> result.reward >= 1 && result.streak >= 1,
            result.accepted ==> final(self).last_claim == now && final(self).streak
                == result.streak,
            !result.accepted ==> result.reward == 0 && result.streak == old(self).streak
                && *final(self) == *old(self),
            final(self).total_reward >= old(self).total_reward,
            old(self).valid() ==> final(self).valid(),
    {
        if self.is_too_soon(now) {
            return ClaimResult { reward: 0, streak: self.streak, accepted: false };
        }
        let streak: u32 = self.next_streak(now);
        let amount: i128 = reward(streak, username);
        let total: i128 = if self.total_reward > i128::MAX - amount {
            i128::MAX
        } else {
            self.total_reward + amount
        };
        self.streak = streak;
        self.last_claim = now;
        self.total_reward = total;
        ClaimResult { reward: amount, streak, accepted: true }
    }
}

impl Default for UserRecord {
    /// The record of a user who never claimed.
    fn default() -> (record: Self)
        ensures
            record == UserRecord::zero(),
    {
        UserRecord::new()
    }
}

} // verus!
