//! What an operation asks the custody ledger to move, and what it reports.

use crate::keys::Pubkey;
use vstd::prelude::*;

verus! {

/// A place where value is held, seen from the operation that moves it.
#[derive(Clone, Copy, Debug, PartialEq, Eq, Structural)]
pub enum Slot {
    /// The vault creator's own account.
    Creator,
    /// The account of the actor who makes an attempt.
    Player,
    /// The recorded winner's own account.
    Winner,
    /// The vault's custody of the locked prize.
    VaultPrize,
    /// The vault's custody of the winner pool.
    VaultPool,
    /// The vault's custody of one bonus asset.
    VaultReward,
    /// The jackpot accumulator shared by all vaults.
    Jackpot,
}

/// One exact-amount movement between two slots. The ledger performs all the
/// movements of an operation or none.
#[derive(Clone, Copy, Debug, PartialEq, Eq, Structural)]
pub struct Transfer {
    pub from: Slot,
    pub to: Slot,
    pub amount: u64,
}

/// Reported when a vault is opened.
#[derive(Clone, Copy, Debug, PartialEq, Eq)]
pub struct VaultCreated {
    pub vault: Pubkey,
    pub creator: Pubkey,
    pub end_ts: i64,
    pub is_sol_fee: bool,
    pub fee_mint: Pubkey,
    pub guess_fee_amount: u64,
}

/// Reported for every accepted attempt, with the fee charged and its split.
#[derive(Clone, Copy, Debug, PartialEq, Eq)]
pub struct GuessMade {
    pub vault: Pubkey,
    pub player: Pubkey,
    pub fee: u64,
    pub winner_cut: u64,
    pub mega_cut: u64,
}

/// Reported when a winner is recorded.
#[derive(Clone, Copy, Debug, PartialEq, Eq)]
pub struct VaultWon {
    pub vault: Pubkey,
    pub winner: Pubkey,
}

/// The movement of `amount` from `from` to `to`, or nothing when there is
/// nothing to move.
pub open spec fn transfer_if_any(from: Slot, to: Slot, amount: u64) -> Seq<Transfer> {
    if amount > 0 {
        seq![Transfer { from, to, amount }]
    } else {
        Seq::<Transfer>::empty()
    }
}

/// All that `plan` moves out of `slot`.
pub open spec fn moved_out(plan: Seq<Transfer>, slot: Slot) -> int
    decreases plan.len(),
{
    if plan.len() == 0 {
        0
    } else {
        moved_out(plan.drop_last(), slot) + if plan.last().from == slot {
            plan.last().amount as int
        } else {
            0
        }
    }
}

/// All that `plan` moves into `slot`.
pub open spec fn moved_in(plan: Seq<Transfer>, slot: Slot) -> int
    decreases plan.len(),
{
    if plan.len() == 0 {
        0
    } else {
        moved_in(plan.drop_last(), slot) + if plan.last().to == slot {
            plan.last().amount as int
        } else {
            0
        }
    }
}

/// Adds the movement of `amount` from `from` to `to` to `plan`, unless the
/// amount is zero.
pub fn push_transfer(plan: &mut Vec<Transfer>, from: Slot, to: Slot, amount: u64)
    ensures
        final(plan)@ == old(plan)@ + transfer_if_any(from, to, amount),
{
    if amount > 0 {
        plan.push(Transfer { from, to, amount });
    }
}

} // verus!
