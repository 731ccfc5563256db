//! Bonus assets that a creator locks into a vault: one slot per asset, filled
//! by deposits and emptied once, by the winner or back to the creator.

use crate::accounts::{AddReward, ClaimReward, ReclaimReward};
use crate::error::VaultError;
use crate::keys::Pubkey;
use crate::ledger::{push_transfer, transfer_if_any, Slot, Transfer};
use crate::state::VaultReward;
use vstd::prelude::*;

verus! {

impl VaultReward {
    /// Why the slot does not belong to `vault`, `mint` and `token_program`,
    /// if it does not: the first mismatch among the three.
    pub open spec fn mismatch(self, vault: Pubkey, mint: Pubkey, token_program: Pubkey) -> Option<
        VaultError,
    > {
        if self.vault != vault {
            Some(VaultError::RewardWrongVault)
        } else if self.mint != mint {
            Some(VaultError::RewardWrongMint)
        } else if self.token_program != token_program {
            Some(VaultError::RewardWrongTokenProgram)
        } else {
            None
        }
    }

    /// The slot after its one payout: empty and claimed.
    pub open spec fn emptied(self) -> VaultReward {
        VaultReward { amount: 0, claimed: true, ..self }
    }

    /// Checks that the slot belongs to `vault`, `mint` and `token_program`.
    pub fn check_slot(&self, vault: Pubkey, mint: Pubkey, token_program: Pubkey) -> (res: Result<
        (),
        VaultError,
    >)
        ensures
            match self.mismatch(vault, mint, token_program) {
                Some(e) => res matches Err(err) && err == e,
                None => res is Ok,
            },
    {
        if self.vault != vault {
            return Err(VaultError::RewardWrongVault);
        }
        if self.mint != mint {
            return Err(VaultError::RewardWrongMint);
        }
        if self.token_program != token_program {
            return Err(VaultError::RewardWrongTokenProgram);
        }
        Ok(())
    }
}

impl AddReward {
    /// Why a deposit of `amount` is refused, if it is: the first of these
    /// that holds. The account that pays is not the caller's, or holds
    /// another asset than the one presented; the amount is zero; the caller
    /// is not the vault's creator; the slot was filled before with another
    /// asset, or through another transfer protocol, or was already claimed;
    /// the slot's amount would overflow.
    pub open spec fn refusal(self, amount: u64) -> Option<VaultError> {
        if self.creator_reward_ata.owner != self.creator {
            Some(VaultError::WrongFeeOwner)
        } else if self.creator_reward_ata.mint != self.reward_mint {
            Some(VaultError::RewardWrongMint)
        } else if amount == 0 {
            Some(VaultError::BadRewardAmount)
        } else if self.vault.creator != self.creator {
            Some(VaultError::NotCreator)
        } else if self.reward.is_unset() {
            None
        } else if self.reward.mint != self.reward_mint {
            Some(VaultError::RewardWrongMint)
        } else if self.reward.token_program != self.token_program {
            Some(VaultError::RewardWrongTokenProgram)
        } else if self.reward.claimed {
            Some(VaultError::RewardAlreadyClaimed)
        } else if self.reward.amount + amount > u64::MAX {
            Some(VaultError::MathOverflow)
        } else {
            None
        }
    }

    /// The slot after a deposit of `amount`: a slot that was never written
    /// now names its vault, asset and transfer protocol and holds `amount`;
    /// any other holds `amount` more.
    pub open spec fn filled(self, amount: u64) -> VaultReward {
        if self.reward.is_unset() {
            VaultReward {
                vault: self.vault_key,
                mint: self.reward_mint,
                token_program: self.token_program,
                amount,
                claimed: false,
                bump: self.reward_bump,
            }
        } else {
            VaultReward { amount: (self.reward.amount + amount) as u64, ..self.reward }
        }
    }

    /// The records after a deposit of `amount` was accepted.
    pub open spec fn deposited(self, amount: u64) -> AddReward {
        AddReward { reward: self.filled(amount), ..self }
    }
}

/// The creator deposits `amount` of a bonus asset into a reward slot of the
/// vault. Deposits into one slot add up.
///
/// A refused deposit changes nothing. An accepted one raises the slot's
/// amount and returns the movement out of the creator's account into the
/// vault's reward custody.
pub fn add_reward(ctx: &mut AddReward, amount: u64) -> (res: Result<Vec<Transfer>, VaultError>)
    ensures
        match old(ctx).refusal(amount) {
            Some(e) => res matches Err(err) && err == e && *final(ctx) == *old(ctx),
            None => {
                &&& res matches Ok(plan)
                &&& plan@ == seq![
                    Transfer { from: Slot::Creator, to: Slot::VaultReward, amount },
                ]
                &&& *final(ctx) == old(ctx).deposited(amount)
            },
        },
        old(ctx).reward.may_become(final(ctx).reward),
        old(ctx).reward.wf() ==> final(ctx).reward.wf(),
{
    if ctx.creator_reward_ata.owner != ctx.creator {
        return Err(VaultError::WrongFeeOwner);
    }
    if ctx.creator_reward_ata.mint != ctx.reward_mint {
        return Err(VaultError::RewardWrongMint);
    }
    if amount == 0 {
        return Err(VaultError::BadRewardAmount);
    }
    if ctx.vault.creator != ctx.creator {
        return Err(VaultError::NotCreator);
    }
    let mut reward = ctx.reward;
    if reward.mint == Pubkey::default() {
        reward.vault = ctx.vault_key;
        reward.mint = ctx.reward_mint;
        reward.token_program = ctx.token_program;
        reward.amount = 0;
        reward.claimed = false;
        reward.bump = ctx.reward_bump;
    } else {
        if reward.mint != ctx.reward_mint {
            return Err(VaultError::RewardWrongMint);
        }
        if reward.token_program != ctx.token_program {
            return Err(VaultError::RewardWrongTokenProgram);
        }
        if reward.claimed {
            return Err(VaultError::RewardAlreadyClaimed);
        }
    }
    reward.amount = match reward.amount.checked_add(amount) {
        Some(n) => n,
        None => { return Err(VaultError::MathOverflow); },
    };
    let mut plan: Vec<Transfer> = Vec::new();
    push_transfer(&mut plan, Slot::Creator, Slot::VaultReward, amount);
    ctx.reward = reward;
    Ok(plan)
}

impl ClaimReward {
    /// Why the claim is refused at `now`, if it is: the first of these that
    /// holds. The slot belongs to another vault, asset or transfer protocol;
    /// the vault has not expired; the caller is not its winner; the slot was
    /// already claimed; the slot is empty.
    pub open spec fn refusal(self, now: i64) -> Option<VaultError> {
        if self.reward.mismatch(self.vault_key, self.reward_mint, self.token_program) is Some {
            self.reward.mismatch(self.vault_key, self.reward_mint, self.token_program)
        } else if now <= self.vault.end_ts {
            Some(VaultError::VaultNotExpired)
        } else if self.vault.winner != Some(self.winner) {
            Some(VaultError::NotWinner)
        } else if self.reward.claimed {
            Some(VaultError::RewardAlreadyClaimed)
        } else if self.reward.amount == 0 {
            Some(VaultError::BadRewardAmount)
        } else {
            None
        }
    }

    /// The records after the claim was accepted: the slot is empty and
    /// claimed.
    pub open spec fn claimed(self) -> ClaimReward {
        ClaimReward { reward: self.reward.emptied(), ..self }
    }
}

/// The winner collects all of one bonus asset, once, after the vault has
/// expired.
///
/// A refused claim changes nothing. An accepted one empties the slot, marks
/// it as claimed and returns the movement of the slot's whole amount to the
/// winner.
pub fn claim_reward(ctx: &mut ClaimReward, now: i64) -> (res: Result<Vec<Transfer>, VaultError>)
    ensures
        match old(ctx).refusal(now) {
            Some(e) => res matches Err(err) && err == e && *final(ctx) == *old(ctx),
            None => {
                &&& res matches Ok(plan)
                &&& plan@ == seq![
                    Transfer {
                        from: Slot::VaultReward,
                        to: Slot::Winner,
                        amount: old(ctx).reward.amount,
                    },
                ]
                &&& *final(ctx) == old(ctx).claimed()
            },
        },
        old(ctx).reward.may_become(final(ctx).reward),
        old(ctx).reward.wf() ==> final(ctx).reward.wf(),
{
    ctx.reward.check_slot(ctx.vault_key, ctx.reward_mint, ctx.token_program)?;
    if now <= ctx.vault.end_ts {
        return Err(VaultError::VaultNotExpired);
    }
    if ctx.vault.winner != Some(ctx.winner) {
        return Err(VaultError::NotWinner);
    }
    if ctx.reward.claimed {
        return Err(VaultError::RewardAlreadyClaimed);
    }
    if ctx.reward.amount == 0 {
        return Err(VaultError::BadRewardAmount);
    }
    let mut plan: Vec<Transfer> = Vec::new();
    push_transfer(&mut plan, Slot::VaultReward, Slot::Winner, ctx.reward.amount);
    ctx.reward.amount = 0;
    ctx.reward.claimed = true;
    Ok(plan)
}

impl ReclaimReward {
    /// Why the reclaim is refused at `now`, if it is: the first of these that
    /// holds. The slot belongs to another vault, asset or transfer protocol;
    /// the vault has not expired; it has a winner; the caller is not its
    /// creator; the slot was already claimed; the slot is empty.
    pub open spec fn refusal(self, now: i64) -> Option<VaultError> {
        if self.reward.mismatch(self.vault_key, self.reward_mint, self.token_program) is Some {
            self.reward.mismatch(self.vault_key, self.reward_mint, self.token_program)
        } else if now <= self.vault.end_ts {
            Some(VaultError::VaultNotExpired)
        } else if self.vault.winner is Some {
            Some(VaultError::AlreadyHasWinner)
        } else if self.vault.creator != self.creator {
            Some(VaultError::NotCreator)
        } else if self.reward.claimed {
            Some(VaultError::RewardAlreadyClaimed)
        } else if self.reward.amount == 0 {
            Some(VaultError::BadRewardAmount)
        } else {
            None
        }
    }

    /// The records after the reclaim was accepted: the slot is empty and
    /// claimed.
    pub open spec fn reclaimed(self) -> ReclaimReward {
        ReclaimReward { reward: self.reward.emptied(), ..self }
    }
}

/// The creator takes back all of one bonus asset, once, after the vault has
/// expired without a winner.
///
/// A refused reclaim changes nothing. An accepted one empties the slot,
/// marks it as claimed and returns the movement of the slot's whole amount
/// back to the creator.
pub fn reclaim_reward(ctx: &mut ReclaimReward, now: i64) -> (res: Result<Vec<Transfer>, VaultError>)
    ensures
        match old(ctx).refusal(now) {
            Some(e) => res matches Err(err) && err == e && *final(ctx) == *old(ctx),
            None => {
                &&& res matches Ok(plan)
                &&& plan@ == seq![
                    Transfer {
                        from: Slot::VaultReward,
                        to: Slot::Creator,
                        amount: old(ctx).reward.amount,
                    },
                ]
                &&& *final(ctx) == old(ctx).reclaimed()
            },
        },
        old(ctx).reward.may_become(final(ctx).reward),
        old(ctx).reward.wf() ==> final(ctx).reward.wf(),
{
    ctx.reward.check_slot(ctx.vault_key, ctx.reward_mint, ctx.token_program)?;
    if now <= ctx.vault.end_ts {
        return Err(VaultError::VaultNotExpired);
    }
    if ctx.vault.winner.is_some() {
        return Err(VaultError::AlreadyHasWinner);
    }
    if ctx.vault.creator != ctx.creator {
        return Err(VaultError::NotCreator);
    }
    if ctx.reward.claimed {
        return Err(VaultError::RewardAlreadyClaimed);
    }
    if ctx.reward.amount == 0 {
        return Err(VaultError::BadRewardAmount);
    }
    let mut plan: Vec<Transfer> = Vec::new();
    push_transfer(&mut plan, Slot::VaultReward, Slot::Creator, ctx.reward.amount);
    ctx.reward.amount = 0;
    ctx.reward.claimed = true;
    Ok(plan)
}

} // verus!
