//! The reward rules: what a claim is worth at a given streak, and for whom.

use crate::text::{contains, has_substring};
use vstd::arithmetic::power2::{lemma2_to64, lemma_pow2_strictly_increases, pow2};
use vstd::bits::lemma_u32_shl_is_mul;
use vstd::prelude::*;

verus! {

/// Seconds that must pass after an accepted claim before the next one.
pub const CLAIM_INTERVAL: u64 = 86_400;

/// Seconds after an accepted claim within which the next claim extends the streak.
pub const STREAK_WINDOW: u64 = 172_800;

/// No base reward exceeds this amount.
pub const REWARD_CAP: i128 = 1024;

/// The flat amount added for identifiers that carry the dragon marker.
pub const DRAGON_BONUS: i128 = 42;

/// The largest reward a single claim can be worth.
pub const MAX_REWARD: i128 = 5162;

/// An identifier is valid when it is not empty.
pub open spec fn valid_identifier(username: Seq<char>) -> bool {
    username.len() > 0
}

/// The characters whose presence in an identifier earns [`DRAGON_BONUS`].
pub open spec fn dragon_marker() -> Seq<char> {
    seq!['D', 'r', 'a', 'g', 'o', 'n']
}

/// The characters whose presence in an identifier marks it for decoration only.
pub open spec fn unicorn_marker() -> Seq<char> {
    seq!['U', 'n', 'i', 'c', 'o', 'r', 'n']
}

/// The base reward of a claim that brings the streak to `streak`:
/// two to the power of the streak, capped at [`REWARD_CAP`].
pub open spec fn spec_base_reward(streak: nat) -> int {
    vstd::math::min(pow2(streak) as int, REWARD_CAP as int)
}

/// The factor applied to the base reward at milestone streaks: 2 at a streak
/// of 7, 3 at 14, 5 at 30, and 1 everywhere else.
pub open spec fn spec_milestone_multiplier(streak: nat) -> int {
    if streak == 7 {
        2
    } else if streak == 14 {
        3
    } else if streak == 30 {
        5
    } else {
        1
    }
}

/// The flat bonus an identifier earns after multipliers.
pub open spec fn spec_identifier_bonus(username: Seq<char>) -> int {
    if has_substring(username, dragon_marker()) {
        DRAGON_BONUS as int
    } else {
        0
    }
}

/// The reward of an accepted claim that brings `username` to `streak`.
pub open spec fn spec_reward(streak: nat, username: Seq<char>) -> int {
    spec_base_reward(streak) * spec_milestone_multiplier(streak) + spec_identifier_bonus(username)
}

/// Whether `username` may be used as an identifier.
pub fn is_valid_identifier(username: &str) -> (valid: bool)
    ensures
        valid == valid_identifier(username@),
{
    !username.is_empty()
}

/// Computes the base reward for `streak`. Streaks whose power of two would
/// pass the cap are answered with the cap, so no shift can wrap.
pub fn base_reward(streak: u32) -> (reward: i128)
    ensures
        reward == spec_base_reward(streak as nat),
        1 <= reward <= REWARD_CAP,
{
    proof {
        lemma2_to64();
    }
    if streak >= 10 {
        proof {
            if streak > 10 {
                lemma_pow2_strictly_increases(10, streak as nat);
            }
        }
        REWARD_CAP
    } else {
        proof {
            lemma_pow2_strictly_increases(streak as nat, 10);
            lemma_u32_shl_is_mul(1, streak);
        }
        let power: u32 = 1u32 << streak;
        power as i128
    }
}

/// The milestone factor for `streak`.
pub fn milestone_multiplier(streak: u32) -> (factor: i128)
    ensures
        factor == spec_milestone_multiplier(streak as nat),
        1 <= factor <= 5,
{
    if streak == 7 {
        2
    } else if streak == 14 {
        3
    } else if streak == 30 {
        5
    } else {
        1
    }
}

/// Whether `username` carries the dragon marker.
pub fn has_dragon_marker(username: &str) -> (marked: bool)
    ensures
        marked == has_substring(username@, dragon_marker()),
{
    proof {
        reveal_strlit("Dragon");
        assert("Dragon"@ =~= dragon_marker());
    }
    contains(username, "Dragon")
}

/// Whether `username` carries the unicorn marker. The marker changes how a
/// claim is presented and never what it is worth.
pub fn has_unicorn_marker(username: &str) -> (marked: bool)
    ensures
        marked == has_substring(username@, unicorn_marker()),
{
    proof {
        reveal_strlit("Unicorn");
        assert("Unicorn"@ =~= unicorn_marker());
    }
    contains(username, "Unicorn")
}

/// The flat bonus `username` earns.
pub fn identifier_bonus(username: &str) -> (bonus: i128)
    ensures
        bonus == spec_identifier_bonus(username@),
        bonus == 0 || bonus == DRAGON_BONUS,
{
    if has_dragon_marker(username) {
        DRAGON_BONUS
    } else {
        0
    }
}

/// The reward of an accepted claim that brings `username` to `streak`:
/// the base reward, times the milestone factor, plus the identifier bonus.
pub fn reward(streak: u32, username: &str) -> (amount: i128)
    ensures
        amount == spec_reward(streak as nat, username@),
        1 <= amount <= MAX_REWARD,
{
    let base: i128 = base_reward(streak);
    let factor: i128 = milestone_multiplier(streak);
    assert(1 <= base * factor <= 5120) by (nonlinear_arith)
        requires
            1 <= base <= 1024,
            1 <= factor <= 5,
    ;
    base * factor + identifier_bonus(username)
}

} // verus!
