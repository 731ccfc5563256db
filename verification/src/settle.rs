//! Settlement: recording the winner, and the one distribution of a vault's
//! escrow after it has expired.

use crate::accounts::{ClaimPrize, ClaimWin, ReclaimPrize};
use crate::error::VaultError;
use crate::hash::{sha256, sha256_digest};
use crate::keys::bytes32_eq;
use crate::ledger::{push_transfer, transfer_if_any, Slot, Transfer, VaultWon};
use crate::state::{Vault, VaultStatus};
use vstd::prelude::*;

verus! {

impl ClaimWin {
    /// Why a reveal whose digest is `digest` is refused at `now`, if it is:
    /// the first of these that holds. The vault already records a winner; it
    /// is not active; it has expired; the digest is not the commitment; the
    /// player's win counter or score would overflow.
    pub open spec fn refusal(self, digest: Seq<u8>, now: i64) -> Option<VaultError> {
        if self.vault.winner is Some {
            Some(VaultError::AlreadyHasWinner)
        } else if !self.vault.is_active() {
            Some(VaultError::VaultNotActive)
        } else if now > self.vault.end_ts {
            Some(VaultError::VaultExpired)
        } else if digest != self.vault.secret_hash@ {
            Some(VaultError::BadSecret)
        } else if self.player_profile.with_win(self.player, now, self.player_profile_bump)
            is Err {
            Some(VaultError::MathOverflow)
        } else {
            None
        }
    }

    /// The records after the player's reveal was accepted at `now`: the vault
    /// is settled with the player as its winner, and the profile has one more
    /// win.
    pub open spec fn won(self, now: i64) -> ClaimWin {
        ClaimWin {
            vault: Vault {
                winner: Some(self.player),
                status: VaultStatus::Settled.code(),
                settled_at: Some(now),
                ..self.vault
            },
            player_profile: self.player_profile.with_win(
                self.player,
                now,
                self.player_profile_bump,
            )->Ok_0,
            ..self
        }
    }

    /// What is reported of an accepted reveal.
    pub open spec fn event(self) -> VaultWon {
        VaultWon { vault: self.vault_key, winner: self.player }
    }
}

/// Settles a reveal whose digest `computed` is already known.
///
/// A refused reveal changes nothing. The first reveal that matches the
/// commitment, on an active vault before its expiry, makes the player the
/// winner and settles the vault. No value moves.
pub fn record_reveal(ctx: &mut ClaimWin, computed: [u8; 32], now: i64) -> (res: Result<
    VaultWon,
    VaultError,
>)
    ensures
        match old(ctx).refusal(computed@, now) {
            Some(e) => res matches Err(err) && err == e && *final(ctx) == *old(ctx),
            None => res matches Ok(event) && event == old(ctx).event() && *final(ctx) == old(
                ctx,
            ).won(now),
        },
        old(ctx).vault.wf() ==> final(ctx).vault.wf() && old(ctx).vault.may_become(
            final(ctx).vault,
        ),
        old(ctx).player_profile.wf() ==> final(ctx).player_profile.wf(),
{
    if ctx.vault.winner.is_some() {
        return Err(VaultError::AlreadyHasWinner);
    }
    if ctx.vault.status != VaultStatus::Active.as_u8() {
        return Err(VaultError::VaultNotActive);
    }
    if now > ctx.vault.end_ts {
        return Err(VaultError::VaultExpired);
    }
    if !bytes32_eq(&computed, &ctx.vault.secret_hash) {
        return Err(VaultError::BadSecret);
    }
    ctx.player_profile.record_win(ctx.player, now, ctx.player_profile_bump)?;
    ctx.vault.winner = Some(ctx.player);
    ctx.vault.status = VaultStatus::Settled.as_u8();
    ctx.vault.settled_at = Some(now);
    Ok(VaultWon { vault: ctx.vault_key, winner: ctx.player })
}

/// Settles the reveal of `secret`: hashes it and compares the digest with the
/// vault's commitment.
///
/// A refused reveal changes nothing. The first reveal that matches the
/// commitment, on an active vault before its expiry, makes the player the
/// winner and settles the vault. No value moves.
pub fn claim_win(ctx: &mut ClaimWin, secret: Vec<u8>, now: i64) -> (res: Result<
    VaultWon,
    VaultError,
>)
    ensures
        match old(ctx).refusal(sha256(secret@), now) {
            Some(e) => res matches Err(err) && err == e && *final(ctx) == *old(ctx),
            None => res matches Ok(event) && event == old(ctx).event() && *final(ctx) == old(
                ctx,
            ).won(now),
        },
        old(ctx).vault.wf() ==> final(ctx).vault.wf() && old(ctx).vault.may_become(
            final(ctx).vault,
        ),
        old(ctx).player_profile.wf() ==> final(ctx).player_profile.wf(),
{
    let computed = sha256_digest(secret.as_slice());
    record_reveal(ctx, computed, now)
}

impl ClaimPrize {
    /// Why the claim is refused at `now`, if it is: the first of these that
    /// holds. The account to be paid holds another asset than the one
    /// presented, or is not the caller's; the vault has not expired; it was
    /// paid out; the caller is not its winner.
    pub open spec fn refusal(self, now: i64) -> Option<VaultError> {
        if self.winner_fee_ata.fee_mismatch(self.fee_mint, self.winner) is Some {
            self.winner_fee_ata.fee_mismatch(self.fee_mint, self.winner)
        } else if now <= self.vault.end_ts {
            Some(VaultError::VaultNotExpired)
        } else if self.vault.paid_out {
            Some(VaultError::AlreadyPaidOut)
        } else if self.vault.winner != Some(self.winner) {
            Some(VaultError::NotWinner)
        } else {
            None
        }
    }

    /// What the winner is paid: the locked prize, then all that the vault's
    /// pool custody holds. A part of zero is left out.
    pub open spec fn payout(self) -> Seq<Transfer> {
        transfer_if_any(Slot::VaultPrize, Slot::Winner, self.vault.prize_amount) + transfer_if_any(
            Slot::VaultPool,
            Slot::Winner,
            self.vault_fee_ata.amount,
        )
    }

    /// The records after the claim was accepted: the vault is paid out.
    pub open spec fn paid(self) -> ClaimPrize {
        ClaimPrize { vault: Vault { paid_out: true, ..self.vault }, ..self }
    }
}

/// The winner collects the locked prize and the winner pool, once, after the
/// vault has expired.
///
/// A refused claim changes nothing. An accepted one marks the vault as paid
/// out and returns the movements for the ledger; the balances in `ctx` stay as
/// the ledger reported them.
pub fn claim_prize(ctx: &mut ClaimPrize, now: i64) -> (res: Result<Vec<Transfer>, VaultError>)
    ensures
        match old(ctx).refusal(now) {
            Some(e) => res matches Err(err) && err == e && *final(ctx) == *old(ctx),
            None => res matches Ok(plan) && plan@ == old(ctx).payout() && *final(ctx) == old(
                ctx,
            ).paid(),
        },
        old(ctx).vault.may_become(final(ctx).vault),
        old(ctx).vault.wf() ==> final(ctx).vault.wf(),
{
    ctx.winner_fee_ata.check_fee_account(ctx.fee_mint, ctx.winner)?;
    if now <= ctx.vault.end_ts {
        return Err(VaultError::VaultNotExpired);
    }
    if ctx.vault.paid_out {
        return Err(VaultError::AlreadyPaidOut);
    }
    if ctx.vault.winner != Some(ctx.winner) {
        return Err(VaultError::NotWinner);
    }
    let mut plan: Vec<Transfer> = Vec::new();
    push_transfer(&mut plan, Slot::VaultPrize, Slot::Winner, ctx.vault.prize_amount);
    push_transfer(&mut plan, Slot::VaultPool, Slot::Winner, ctx.vault_fee_ata.amount);
    ctx.vault.paid_out = true;
    Ok(plan)
}

impl ReclaimPrize {
    /// Why the reclaim is refused at `now`, if it is: the first of these that
    /// holds. The account to be paid holds another asset than the one
    /// presented, or is not the caller's; the vault has not expired; it was
    /// paid out; it has a winner; the caller is not its creator.
    pub open spec fn refusal(self, now: i64) -> Option<VaultError> {
        if self.creator_fee_ata.fee_mismatch(self.fee_mint, self.creator) is Some {
            self.creator_fee_ata.fee_mismatch(self.fee_mint, self.creator)
        } else if now <= self.vault.end_ts {
            Some(VaultError::VaultNotExpired)
        } else if self.vault.paid_out {
            Some(VaultError::AlreadyPaidOut)
        } else if self.vault.winner is Some {
            Some(VaultError::AlreadyHasWinner)
        } else if self.vault.creator != self.creator {
            Some(VaultError::NotCreator)
        } else {
            None
        }
    }

    /// The creator's half of the pool, rounded down.
    pub open spec fn creator_cut(self) -> u64 {
        self.vault_fee_ata.amount / 2
    }

    /// The jackpot's half of the pool: what the creator's half leaves.
    pub open spec fn mega_cut(self) -> u64 {
        (self.vault_fee_ata.amount - self.vault_fee_ata.amount / 2) as u64
    }

    /// What is moved: the locked prize back to the creator, then the
    /// creator's half of the pool, then the jackpot's half. A part of zero is
    /// left out.
    pub open spec fn refund(self) -> Seq<Transfer> {
        transfer_if_any(Slot::VaultPrize, Slot::Creator, self.vault.prize_amount) + transfer_if_any(
            Slot::VaultPool,
            Slot::Creator,
            self.creator_cut(),
        ) + transfer_if_any(Slot::VaultPool, Slot::Jackpot, self.mega_cut())
    }

    /// The records after the reclaim was accepted: the vault is cancelled and
    /// paid out.
    pub open spec fn cancelled(self) -> ReclaimPrize {
        ReclaimPrize {
            vault: Vault {
                paid_out: true,
                status: VaultStatus::Cancelled.code(),
                ..self.vault
            },
            ..self
        }
    }
}

/// The creator takes back the locked prize of an expired vault that nobody
/// won, with half of the winner pool; the other half goes to the jackpot.
///
/// A refused reclaim changes nothing. An accepted one cancels the vault,
/// marks it as paid out and returns the movements for the ledger; the
/// balances in `ctx` stay as the ledger reported them.
pub fn reclaim_prize(ctx: &mut ReclaimPrize, now: i64) -> (res: Result<Vec<Transfer>, VaultError>)
    ensures
        match old(ctx).refusal(now) {
            Some(e) => res matches Err(err) && err == e && *final(ctx) == *old(ctx),
            None => res matches Ok(plan) && plan@ == old(ctx).refund() && *final(ctx) == old(
                ctx,
            ).cancelled(),
        },
        old(ctx).vault.wf() ==> final(ctx).vault.wf() && old(ctx).vault.may_become(
            final(ctx).vault,
        ),
{
    ctx.creator_fee_ata.check_fee_account(ctx.fee_mint, ctx.creator)?;
    if now <= ctx.vault.end_ts {
        return Err(VaultError::VaultNotExpired);
    }
    if ctx.vault.paid_out {
        return Err(VaultError::AlreadyPaidOut);
    }
    if ctx.vault.winner.is_some() {
        return Err(VaultError::AlreadyHasWinner);
    }
    if ctx.vault.creator != ctx.creator {
        return Err(VaultError::NotCreator);
    }
    let pool_amount = ctx.vault_fee_ata.amount;
    let creator_cut: u64 = pool_amount / 2;
    let mega_cut: u64 = pool_amount - creator_cut;
    let mut plan: Vec<Transfer> = Vec::new();
    push_transfer(&mut plan, Slot::VaultPrize, Slot::Creator, ctx.vault.prize_amount);
    push_transfer(&mut plan, Slot::VaultPool, Slot::Creator, creator_cut);
    push_transfer(&mut plan, Slot::VaultPool, Slot::Jackpot, mega_cut);
    ctx.vault.paid_out = true;
    ctx.vault.status = VaultStatus::Cancelled.as_u8();
    Ok(plan)
}

} // verus!
