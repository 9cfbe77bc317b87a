//! Fee estimation for the on-chain channel-funding transaction.
//!
//! The transaction is modelled with a fixed shape: one input per consumed
//! wallet output, two outputs (the channel funding output and change), and a
//! fixed overhead. Input and overhead weights are not whole virtual bytes
//! (57.5 vbytes per input, 10.5 vbytes overhead), so all sizes and fees are
//! kept in *half* units — half-vbytes and half-satoshis — which makes every
//! quantity an exact integer.

use vstd::prelude::*;

verus! {

/// Estimated weight of one transaction input, in half-vbytes (57.5 vbytes).
pub const INPUT_HALF_VBYTES: u64 = 115;

/// Weight of the fixed part of the funding transaction — two outputs of
/// 43 vbytes each plus 10.5 vbytes of overhead — in half-vbytes (96.5 vbytes).
pub const BASE_HALF_VBYTES: u64 = 193;

/// Estimated virtual size, in half-vbytes, of a funding transaction that
/// spends `inputs` wallet outputs.
pub open spec fn spec_tx_half_vbytes(inputs: int) -> int {
    INPUT_HALF_VBYTES * inputs + BASE_HALF_VBYTES
}

/// Estimated fee, in half-satoshis, of a funding transaction that spends
/// `inputs` wallet outputs at `rate` satoshis per vbyte.
pub open spec fn spec_fee_half_sats(inputs: int, rate: int) -> int {
    spec_tx_half_vbytes(inputs) * rate
}

/// Estimated virtual size, in half-vbytes, of a funding transaction with
/// `inputs` inputs.
pub fn tx_half_vbytes(inputs: usize) -> (size: u128)
    ensures
        size == spec_tx_half_vbytes(inputs as int),
{
    115 * (inputs as u128) + 193
}

/// Estimated fee, in half-satoshis, of a funding transaction with `inputs`
/// inputs at `rate` satoshis per vbyte.
pub fn fee_half_sats(inputs: usize, rate: u32) -> (fee: u128)
    ensures
        fee == spec_fee_half_sats(inputs as int, rate as int),
{
    let size = tx_half_vbytes(inputs);
    proof {
        assert(size * rate <= (115 * 0xffff_ffff_ffff_ffffu128 + 193) * 0xffff_ffffu128)
            by (nonlinear_arith)
            requires
                size <= 115 * 0xffff_ffff_ffff_ffffu128 + 193,
                rate <= 0xffff_ffffu32,
        ;
    }
    size * (rate as u128)
}

/// The fee estimate is never negative.
pub proof fn lemma_fee_nonneg(inputs: int, rate: int)
    requires
        0 <= inputs,
        0 <= rate,
    ensures
        0 <= spec_fee_half_sats(inputs, rate),
{
    assert(0 <= (115 * inputs + 193) * rate) by (nonlinear_arith)
        requires
            0 <= inputs,
            0 <= rate,
    ;
}

} // verus!
