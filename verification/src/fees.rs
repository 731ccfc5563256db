//! The attempt-fee ladder and the split of a collected fee.

use crate::error::VaultError;
use vstd::prelude::*;

verus! {

/// The fee that follows `fee` on the ladder: `fee` times 6/5, rounded up.
pub open spec fn ladder_step(fee: nat) -> nat {
    (fee * 6 + 4) / 5
}

/// The fee reached from `start` after `steps` paid attempts.
pub open spec fn ladder(start: nat, steps: nat) -> nat
    decreases steps,
{
    if steps == 0 {
        start
    } else {
        ladder_step(ladder(start, (steps - 1) as nat))
    }
}

/// The part of `fee` that goes to the vault's winner pool: 80%, rounded down.
pub open spec fn winner_share(fee: nat) -> nat {
    fee * 80 / 100
}

/// What `next_fee` returns.
pub open spec fn spec_next_fee(prev_fee: u64) -> Result<u64, VaultError> {
    if prev_fee * 6 > u64::MAX {
        Err(VaultError::MathOverflow)
    } else {
        Ok(ladder_step(prev_fee as nat) as u64)
    }
}

/// What `split_fee` returns.
pub open spec fn spec_split_fee(fee: u64) -> Result<(u64, u64), VaultError> {
    if fee * 80 > u64::MAX {
        Err(VaultError::MathOverflow)
    } else {
        Ok((winner_share(fee as nat) as u64, (fee - winner_share(fee as nat)) as u64))
    }
}

/// The factor by which a secret of `pin_len` digits scales the base fee,
/// or `None` for a length that is not accepted.
pub open spec fn spec_pin_multiplier(pin_len: u8) -> Option<u64> {
    if pin_len == 3 {
        Some(100u64)
    } else if pin_len == 4 {
        Some(25u64)
    } else if pin_len == 5 || pin_len == 6 {
        Some(10u64)
    } else if pin_len == 8 {
        Some(1u64)
    } else {
        None
    }
}

/// What `starting_fee` returns.
pub open spec fn spec_starting_fee(base_fee_amount: u64, pin_len: u8) -> Result<u64, VaultError> {
    match spec_pin_multiplier(pin_len) {
        None => Err(VaultError::BadPinLen),
        Some(mult) => if base_fee_amount * mult > u64::MAX {
            Err(VaultError::MathOverflow)
        } else {
            Ok((base_fee_amount * mult) as u64)
        },
    }
}

/// A ladder step never lowers the fee, raises every non-zero fee, and keeps a
/// free vault free.
pub proof fn lemma_ladder_step_grows(fee: nat)
    ensures
        ladder_step(fee) >= fee,
        fee > 0 ==> ladder_step(fee) > fee,
        ladder_step(0) == 0,
        ladder_step(fee) <= fee * 6,
{
}

/// The fee never goes down along the ladder.
pub proof fn lemma_ladder_nondecreasing(start: nat, earlier: nat, later: nat)
    requires
        earlier <= later,
    ensures
        ladder(start, earlier) <= ladder(start, later),
    decreases later,
{
    if earlier < later {
        lemma_ladder_nondecreasing(start, earlier, (later - 1) as nat);
        lemma_ladder_step_grows(ladder(start, (later - 1) as nat));
    }
}

/// A free vault stays free however many attempts are made.
pub proof fn lemma_ladder_from_zero(steps: nat)
    ensures
        ladder(0, steps) == 0,
    decreases steps,
{
    if steps > 0 {
        lemma_ladder_from_zero((steps - 1) as nat);
    }
}

/// The two parts of a split add up to the fee, and the winner's part is the
/// larger one for any fee above 1: nothing is lost to rounding.
pub proof fn lemma_split_conserves(fee: nat)
    ensures
        winner_share(fee) <= fee,
        winner_share(fee) + (fee - winner_share(fee)) == fee,
        5 * winner_share(fee) <= 4 * fee < 5 * winner_share(fee) + 5,
{
}

/// The fee after `prev_fee` on the ladder, or `MathOverflow` when six times
/// `prev_fee` does not fit in 64 bits.
pub fn next_fee(prev_fee: u64) -> (res: Result<u64, VaultError>)
    ensures
        res == spec_next_fee(prev_fee),
        res matches Ok(fee) ==> fee == ladder_step(prev_fee as nat) && fee >= prev_fee,
{
    match prev_fee.checked_mul(6) {
        None => Err(VaultError::MathOverflow),
        Some(n) => {
            let whole: u64 = n / 5;
            if n % 5 == 0 {
                Ok(whole)
            } else {
                Ok(whole + 1)
            }
        },
    }
}

/// Divides a collected fee into the winner pool's part and the jackpot's part,
/// or fails with `MathOverflow` when eighty times `fee` does not fit in 64 bits.
pub fn split_fee(fee: u64) -> (res: Result<(u64, u64), VaultError>)
    ensures
        res == spec_split_fee(fee),
        res matches Ok((winner_cut, mega_cut)) ==> winner_cut + mega_cut == fee && winner_cut
            == winner_share(fee as nat),
{
    match fee.checked_mul(80) {
        None => Err(VaultError::MathOverflow),
        Some(scaled) => {
            let winner_cut: u64 = scaled / 100;
            let mega_cut: u64 = fee - winner_cut;
            Ok((winner_cut, mega_cut))
        },
    }
}

/// The fee multiplier for a secret of `pin_len` digits, if that length is accepted.
pub fn pin_multiplier(pin_len: u8) -> (mult: Option<u64>)
    ensures
        mult == spec_pin_multiplier(pin_len),
{
    if pin_len == 3 {
        Some(100)
    } else if pin_len == 4 {
        Some(25)
    } else if pin_len == 5 || pin_len == 6 {
        Some(10)
    } else if pin_len == 8 {
        Some(1)
    } else {
        None
    }
}

/// The first attempt fee of a vault: the creator's base fee scaled by the
/// multiplier of the secret's length. A base fee of zero gives a free vault.
pub fn starting_fee(base_fee_amount: u64, pin_len: u8) -> (res: Result<u64, VaultError>)
    ensures
        res == spec_starting_fee(base_fee_amount, pin_len),
{
    match pin_multiplier(pin_len) {
        None => Err(VaultError::BadPinLen),
        Some(mult) => {
            if base_fee_amount == 0 {
                Ok(0)
            } else {
                match base_fee_amount.checked_mul(mult) {
                    None => Err(VaultError::MathOverflow),
                    Some(fee) => Ok(fee),
                }
            }
        },
    }
}

} // verus!
