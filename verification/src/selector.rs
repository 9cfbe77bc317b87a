//! Funding-source selection: pick wallet outputs to fund a channel.
//!
//! The selector walks the outputs in the order given — deliberately not
//! value-sorted, matching the wallet's natural iteration order — and consumes
//! the shortest prefix whose total covers the channel size plus the estimated
//! fee for a transaction spending that prefix. A wrong answer here risks an
//! unconfirmable or stuck funding transaction, so the contract pins the result
//! exactly: the consumed prefix covers target plus fee, and no shorter prefix
//! does.

use vstd::prelude::*;

use crate::fee::{fee_half_sats, lemma_fee_nonneg, spec_fee_half_sats};
use crate::model::{Outpoint, SpendableOutput};

verus! {

/// Sum, in satoshis, of the amounts of a sequence of wallet outputs.
pub open spec fn spec_total_sats(s: Seq<SpendableOutput>) -> int
    decreases s.len(),
{
    if s.len() == 0 {
        0
    } else {
        spec_total_sats(s.drop_last()) + s.last().amount_sats
    }
}

/// The first `k` outputs cover the channel size plus the fee of a transaction
/// spending those `k` outputs, at `rate` satoshis per vbyte. Stated over
/// doubled amounts because the fee is held in half-satoshis.
pub open spec fn spec_covers(s: Seq<SpendableOutput>, k: int, target: int, rate: int) -> bool {
    2 * spec_total_sats(s.take(k)) >= 2 * target + spec_fee_half_sats(k, rate)
}

/// `k` is the length of the shortest prefix of `s` covering `target` plus the
/// fee of spending that prefix.
pub open spec fn spec_is_min_cover(s: Seq<SpendableOutput>, k: int, target: int, rate: int) -> bool {
    &&& 0 <= k <= s.len()
    &&& spec_covers(s, k, target, rate)
    &&& forall|j: int| 0 <= j < k ==> !spec_covers(s, j, target, rate)
}

/// No prefix of `s` covers `target` plus its own fee: selection must fail.
pub open spec fn spec_no_cover(s: Seq<SpendableOutput>, target: int, rate: int) -> bool {
    forall|k: int| 0 <= k <= s.len() ==> !spec_covers(s, k, target, rate)
}

/// The satoshi shortfall reported when selection fails: the distance to the
/// target itself, or — when the target is reached but not the fee on top of
/// it — to the target plus the rounded-up fee of spending every output.
pub open spec fn spec_shortfall(s: Seq<SpendableOutput>, target: int, rate: int) -> int {
    if spec_total_sats(s) < target {
        target - spec_total_sats(s)
    } else {
        target + (spec_fee_half_sats(s.len() as int, rate) + 1) / 2 - spec_total_sats(s)
    }
}

/// The outputs selected to fund one channel, plus the realized fee estimate.
/// Discarded after the open-channel call succeeds or fails.
#[derive(Clone, Debug, PartialEq, Eq)]
pub struct FundingPlan {
    /// The consumed outpoints, a prefix of the available outputs in their
    /// original order.
    pub outpoints: Vec<Outpoint>,
    /// Estimated fee of the funding transaction, in half-satoshis.
    pub fee_half_sats: u128,
}

/// The available outputs cannot fund the channel.
#[derive(Clone, Copy, Debug, PartialEq, Eq, Structural)]
pub struct InsufficientFunds {
    /// How many satoshis are missing: the distance from the available total
    /// to the channel size, or — when the total reaches the size but not the
    /// fee on top of it — to the size plus the (rounded-up) fee of spending
    /// every output.
    pub shortfall_sats: u128,
}

/// Appending one output extends the prefix sum by its amount.
pub proof fn lemma_total_take_succ(s: Seq<SpendableOutput>, k: int)
    requires
        0 <= k < s.len(),
    ensures
        spec_total_sats(s.take(k + 1)) == spec_total_sats(s.take(k)) + s[k].amount_sats,
{
    let t = s.take(k + 1);
    assert(t.drop_last() =~= s.take(k));
    assert(t.last() == s[k]);
}

/// Prefix sums never exceed the total of the whole sequence.
pub proof fn lemma_total_prefix_le(s: Seq<SpendableOutput>, k: int)
    requires
        0 <= k <= s.len(),
    ensures
        spec_total_sats(s.take(k)) <= spec_total_sats(s),
    decreases s.len() - k,
{
    if k == s.len() {
        assert(s.take(k) =~= s);
    } else {
        lemma_total_take_succ(s, k);
        lemma_total_prefix_le(s, k + 1);
    }
}

/// Sums of wallet outputs are never negative.
pub proof fn lemma_total_nonneg(s: Seq<SpendableOutput>)
    ensures
        spec_total_sats(s) >= 0,
    decreases s.len(),
{
    if s.len() > 0 {
        lemma_total_nonneg(s.drop_last());
    }
}

/// If the outputs do not even reach the target on their own, no prefix can
/// cover target plus fee.
pub proof fn lemma_short_total_never_covers(
    s: Seq<SpendableOutput>,
    target: int,
    rate: int,
    k: int,
)
    requires
        0 <= k <= s.len(),
        0 <= rate,
        spec_total_sats(s) < target,
    ensures
        !spec_covers(s, k, target, rate),
{
    lemma_total_prefix_le(s, k);
    lemma_fee_nonneg(k, rate);
}

/// Whether `2 * consumed >= 2 * target + fee`, computed without leaving
/// 128-bit arithmetic: doubling `consumed` could overflow, so the comparison
/// is carried out against the rounded-up fee in whole satoshis instead.
fn covered(consumed: u128, target: u64, fee_half: u128) -> (b: bool)
    ensures
        b == (2 * consumed >= 2 * (target as int) + fee_half),
{
    if consumed < target as u128 {
        proof {
            assert(2 * consumed < 2 * (target as int));
        }
        false
    } else {
        let need = fee_half / 2 + fee_half % 2;
        let have = consumed - (target as u128);
        proof {
            let d = consumed - target;
            let f = fee_half as int;
            assert((2 * d >= f) == (d >= f / 2 + f % 2)) by {
                assert(f == 2 * (f / 2) + f % 2);
            }
        }
        have >= need
    }
}

/// Sum of the amounts of all outputs, in satoshis. The sum of fewer than
/// 2^64 values each below 2^64 always fits in 128 bits.
fn total_sats(outputs: &Vec<SpendableOutput>) -> (total: u128)
    ensures
        total == spec_total_sats(outputs@),
{
    let n = outputs.len();
    let mut total: u128 = 0;
    let mut i: usize = 0;
    while i < n
        invariant
            n == outputs@.len(),
            0 <= i <= n,
            total == spec_total_sats(outputs@.take(i as int)),
            total <= i * 0xffff_ffff_ffff_ffffu64,
        decreases n - i,
    {
        proof {
            lemma_total_take_succ(outputs@, i as int);
            assert((i + 1) * 0xffff_ffff_ffff_ffffu64
                == i * 0xffff_ffff_ffff_ffffu64 + 0xffff_ffff_ffff_ffffu64) by (nonlinear_arith);
        }
        total = total + (outputs[i].amount_sats as u128);
        i = i + 1;
    }
    proof {
        assert(outputs@.take(n as int) =~= outputs@);
    }
    total
}

/// Length of the shortest prefix of `outputs` that covers `target` plus the
/// fee of spending that prefix, or `None` when no prefix does.
fn find_cover(target: u64, rate: u32, outputs: &Vec<SpendableOutput>) -> (r: Option<usize>)
    ensures
        match r {
            Some(k) => {
                &&& k <= outputs@.len()
                &&& spec_covers(outputs@, k as int, target as int, rate as int)
                &&& forall|j: int|
                    0 <= j < k ==> !spec_covers(outputs@, j, target as int, rate as int)
            },
            None => forall|j: int|
                0 <= j <= outputs@.len() ==> !spec_covers(
                    outputs@,
                    j,
                    target as int,
                    rate as int,
                ),
        },
{
    let n = outputs.len();
    let mut consumed: u128 = 0;
    let mut k: usize = 0;
    if covered(consumed, target, fee_half_sats(0, rate)) {
        return Some(0);
    }
    while k < n
        invariant
            n == outputs@.len(),
            0 <= k <= n,
            consumed == spec_total_sats(outputs@.take(k as int)),
            consumed <= k * 0xffff_ffff_ffff_ffffu64,
            forall|j: int| 0 <= j <= k ==> !spec_covers(outputs@, j, target as int, rate as int),
        decreases n - k,
    {
        proof {
            lemma_total_take_succ(outputs@, k as int);
            assert((k + 1) * 0xffff_ffff_ffff_ffffu64
                == k * 0xffff_ffff_ffff_ffffu64 + 0xffff_ffff_ffff_ffffu64) by (nonlinear_arith);
        }
        consumed = consumed + (outputs[k].amount_sats as u128);
        k = k + 1;
        if covered(consumed, target, fee_half_sats(k, rate)) {
            return Some(k);
        }
    }
    None
}

/// Select wallet outputs to fund a channel of `target_sats` satoshis at
/// `rate_sat_per_vbyte`.
///
/// Walks the outputs in the order given and consumes the shortest prefix
/// whose amounts cover the channel size plus the estimated fee of a
/// transaction spending exactly that prefix. Fails with [`InsufficientFunds`]
/// when the outputs together fall short of the channel size, or reach it but
/// cannot also pay the fee.
pub fn select(target_sats: u64, rate_sat_per_vbyte: u32, outputs: &Vec<SpendableOutput>) -> (r:
    Result<FundingPlan, InsufficientFunds>)
    ensures
        match r {
            Ok(plan) => {
                &&& spec_total_sats(outputs@) >= target_sats
                &&& spec_is_min_cover(
                    outputs@,
                    plan.outpoints@.len() as int,
                    target_sats as int,
                    rate_sat_per_vbyte as int,
                )
                &&& forall|i: int|
                    0 <= i < plan.outpoints@.len() ==> plan.outpoints@[i]
                        == #[trigger] outputs@[i].outpoint
                &&& plan.fee_half_sats == spec_fee_half_sats(
                    plan.outpoints@.len() as int,
                    rate_sat_per_vbyte as int,
                )
            },
            Err(e) => {
                &&& spec_no_cover(outputs@, target_sats as int, rate_sat_per_vbyte as int)
                &&& e.shortfall_sats == spec_shortfall(
                    outputs@,
                    target_sats as int,
                    rate_sat_per_vbyte as int,
                )
                &&& e.shortfall_sats > 0
            },
        },
{
    let total = total_sats(outputs);
    proof {
        lemma_total_nonneg(outputs@);
    }
    if total < target_sats as u128 {
        proof {
            assert forall|j: int| 0 <= j <= outputs@.len() implies !spec_covers(
                outputs@,
                j,
                target_sats as int,
                rate_sat_per_vbyte as int,
            ) by {
                lemma_short_total_never_covers(
                    outputs@,
                    target_sats as int,
                    rate_sat_per_vbyte as int,
                    j,
                );
            }
        }
        return Err(InsufficientFunds { shortfall_sats: (target_sats as u128) - total });
    }
    match find_cover(target_sats, rate_sat_per_vbyte, outputs) {
        Some(k) => {
            let mut outpoints: Vec<Outpoint> = Vec::new();
            let mut i: usize = 0;
            while i < k
                invariant
                    0 <= i <= k <= outputs@.len(),
                    outpoints@.len() == i,
                    forall|m: int|
                        0 <= m < i ==> outpoints@[m] == #[trigger] outputs@[m].outpoint,
                decreases k - i,
            {
                outpoints.push(outputs[i].outpoint.dup());
                i = i + 1;
            }
            let fee = fee_half_sats(k, rate_sat_per_vbyte);
            Ok(FundingPlan { outpoints, fee_half_sats: fee })
        },
        None => {
            let fee_all = fee_half_sats(outputs.len(), rate_sat_per_vbyte);
            proof {
                let f = fee_all as int;
                let d = total - target_sats;
                assert(!spec_covers(
                    outputs@,
                    outputs@.len() as int,
                    target_sats as int,
                    rate_sat_per_vbyte as int,
                ));
                assert(outputs@.take(outputs@.len() as int) =~= outputs@);
                assert((2 * d >= f) == (d >= f / 2 + f % 2)) by {
                    assert(f == 2 * (f / 2) + f % 2);
                }
                assert(f / 2 + f % 2 == (f + 1) / 2) by {
                    assert(f == 2 * (f / 2) + f % 2);
                }
            }
            let need = (target_sats as u128) + (fee_all / 2 + fee_all % 2);
            Err(InsufficientFunds { shortfall_sats: need - total })
        },
    }
}

} // verus!
