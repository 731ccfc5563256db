//! Attempts: each one is validated, charged at the vault's current fee, and
//! moves the fee one step up the ladder.

use crate::accounts::{MakeGuessSol, MakeGuessSpl};
use crate::error::VaultError;
use crate::fees::{ladder_step, next_fee, spec_next_fee, spec_split_fee, split_fee, winner_share};
use crate::keys::Pubkey;
use crate::ledger::{GuessMade, Slot, Transfer};
use crate::state::{PlayerProfile, Vault, VaultStatus};
use vstd::prelude::*;

verus! {

/// What an attempt at `fee` moves: nothing when the vault is free, else the
/// jackpot's part and then the winner pool's part, both out of the player's
/// account.
pub open spec fn guess_transfers(fee: u64) -> Seq<Transfer> {
    if fee == 0 {
        Seq::<Transfer>::empty()
    } else {
        seq![
            Transfer {
                from: Slot::Player,
                to: Slot::Jackpot,
                amount: (fee - winner_share(fee as nat)) as u64,
            },
            Transfer {
                from: Slot::Player,
                to: Slot::VaultPool,
                amount: winner_share(fee as nat) as u64,
            },
        ]
    }
}

/// What is reported of an attempt at `fee`.
pub open spec fn guess_event(vault: Pubkey, player: Pubkey, fee: u64) -> GuessMade {
    GuessMade {
        vault,
        player,
        fee,
        winner_cut: winner_share(fee as nat) as u64,
        mega_cut: (fee - winner_share(fee as nat)) as u64,
    }
}

impl Vault {
    /// Why the vault takes no attempt at `now`, if it takes none.
    pub open spec fn closed_to_guesses(self, now: i64) -> Option<VaultError> {
        if !self.is_active() {
            Some(VaultError::VaultNotActive)
        } else if now > self.end_ts {
            Some(VaultError::VaultExpired)
        } else {
            None
        }
    }

    /// The vault after one more attempt at its current fee. A free vault only
    /// counts the attempt. Otherwise the fee joins the fees collected, its
    /// winner's part joins the winner pool, and the fee moves one step up the
    /// ladder. `MathOverflow` if any of these leaves 64 bits.
    pub open spec fn charged(self) -> Result<Vault, VaultError> {
        let fee = self.current_fee_amount;
        if self.attempt_count + 1 > u64::MAX {
            Err(VaultError::MathOverflow)
        } else if fee == 0 {
            Ok(Vault { attempt_count: (self.attempt_count + 1) as u64, ..self })
        } else if spec_split_fee(fee) is Err || spec_next_fee(fee) is Err
            || self.total_fees_collected + fee > u64::MAX || self.winner_fee_pool + winner_share(
            fee as nat,
        ) > u64::MAX {
            Err(VaultError::MathOverflow)
        } else {
            Ok(
                Vault {
                    total_fees_collected: (self.total_fees_collected + fee) as u64,
                    winner_fee_pool: (self.winner_fee_pool + winner_share(fee as nat)) as u64,
                    attempt_count: (self.attempt_count + 1) as u64,
                    current_fee_amount: ladder_step(fee as nat) as u64,
                    ..self
                },
            )
        }
    }

    /// Computes the vault after one more attempt at its current fee.
    pub fn charge(&self) -> (res: Result<Vault, VaultError>)
        ensures
            res == self.charged(),
            res matches Ok(after) ==> self.may_become(after) && (self.wf() ==> after.wf()),
    {
        let fee = self.current_fee_amount;
        let attempt_count = match self.attempt_count.checked_add(1) {
            Some(n) => n,
            None => { return Err(VaultError::MathOverflow); },
        };
        if fee == 0 {
            let mut after = *self;
            after.attempt_count = attempt_count;
            return Ok(after);
        }
        let (winner_cut, _mega_cut) = split_fee(fee)?;
        let total_fees_collected = match self.total_fees_collected.checked_add(fee) {
            Some(n) => n,
            None => { return Err(VaultError::MathOverflow); },
        };
        let winner_fee_pool = match self.winner_fee_pool.checked_add(winner_cut) {
            Some(n) => n,
            None => { return Err(VaultError::MathOverflow); },
        };
        let current_fee_amount = next_fee(fee)?;
        let mut after = *self;
        after.total_fees_collected = total_fees_collected;
        after.winner_fee_pool = winner_fee_pool;
        after.attempt_count = attempt_count;
        after.current_fee_amount = current_fee_amount;
        Ok(after)
    }
}

/// Charges one attempt by `player` to `vault` and records it in the player's
/// profile. Nothing changes unless both the vault and the profile can take it.
fn take_guess(
    vault: &mut Vault,
    profile: &mut PlayerProfile,
    vault_key: Pubkey,
    player: Pubkey,
    bump: u8,
    now: i64,
) -> (res: Result<(GuessMade, Vec<Transfer>), VaultError>)
    ensures
        match (old(profile).with_attempt(player, now, bump), old(vault).charged()) {
            (Ok(seen), Ok(after)) => {
                &&& res matches Ok((event, plan))
                &&& event == guess_event(vault_key, player, old(vault).current_fee_amount)
                &&& plan@ == guess_transfers(old(vault).current_fee_amount)
                &&& *final(vault) == after
                &&& *final(profile) == seen
            },
            _ => {
                &&& res matches Err(e)
                &&& e == VaultError::MathOverflow
                &&& *final(vault) == *old(vault)
                &&& *final(profile) == *old(profile)
            },
        },
        old(vault).may_become(*final(vault)),
        old(vault).wf() ==> final(vault).wf(),
        old(profile).wf() ==> final(profile).wf(),
{
    let fee = vault.current_fee_amount;
    let after = vault.charge()?;
    profile.record_attempt(player, now, bump)?;
    let mut plan: Vec<Transfer> = Vec::new();
    let mut winner_cut: u64 = 0;
    let mut mega_cut: u64 = 0;
    if fee != 0 {
        let (to_pool, to_jackpot) = split_fee(fee)?;
        winner_cut = to_pool;
        mega_cut = to_jackpot;
        plan.push(Transfer { from: Slot::Player, to: Slot::Jackpot, amount: mega_cut });
        plan.push(Transfer { from: Slot::Player, to: Slot::VaultPool, amount: winner_cut });
    }
    *vault = after;
    Ok((GuessMade { vault: vault_key, player, fee, winner_cut, mega_cut }, plan))
}

impl MakeGuessSol {
    /// Why the attempt is refused at `now`, if it is: the first of these that
    /// holds. The vault is not active; it has expired; it takes its fees in
    /// the fee asset; a counter, the score or the fee would overflow.
    pub open spec fn refusal(self, now: i64) -> Option<VaultError> {
        if self.vault.closed_to_guesses(now) is Some {
            self.vault.closed_to_guesses(now)
        } else if !self.vault.is_sol_fee {
            Some(VaultError::WrongFeeCurrency)
        } else if self.player_profile.with_attempt(self.player, now, self.player_profile_bump)
            is Err || self.vault.charged() is Err {
            Some(VaultError::MathOverflow)
        } else {
            None
        }
    }

    /// The records after the attempt was accepted at `now`.
    pub open spec fn accepted(self, now: i64) -> MakeGuessSol {
        MakeGuessSol {
            vault: self.vault.charged()->Ok_0,
            player_profile: self.player_profile.with_attempt(
                self.player,
                now,
                self.player_profile_bump,
            )->Ok_0,
            ..self
        }
    }
}

impl MakeGuessSpl {
    /// Why the attempt is refused at `now`, if it is: the first of these that
    /// holds. The player's fee account holds another asset than the one
    /// presented, or is not the player's; the vault is not active; it has
    /// expired; it takes its fees in the native currency; the asset presented
    /// is not the vault's; a counter, the score or the fee would overflow.
    pub open spec fn refusal(self, now: i64) -> Option<VaultError> {
        if self.player_fee_ata.fee_mismatch(self.fee_mint, self.player) is Some {
            self.player_fee_ata.fee_mismatch(self.fee_mint, self.player)
        } else if self.vault.closed_to_guesses(now) is Some {
            self.vault.closed_to_guesses(now)
        } else if self.vault.is_sol_fee {
            Some(VaultError::WrongFeeCurrency)
        } else if self.fee_mint != self.vault.fee_mint {
            Some(VaultError::WrongFeeMint)
        } else if self.player_profile.with_attempt(self.player, now, self.player_profile_bump)
            is Err || self.vault.charged() is Err {
            Some(VaultError::MathOverflow)
        } else {
            None
        }
    }

    /// The records after the attempt was accepted at `now`.
    pub open spec fn accepted(self, now: i64) -> MakeGuessSpl {
        MakeGuessSpl {
            vault: self.vault.charged()->Ok_0,
            player_profile: self.player_profile.with_attempt(
                self.player,
                now,
                self.player_profile_bump,
            )->Ok_0,
            ..self
        }
    }
}

/// One attempt on a vault that takes its fees in the native currency.
///
/// A refused attempt changes nothing. An accepted one counts the attempt in
/// the vault and in the player's profile, and on a vault that is not free
/// charges the current fee: the plan moves the jackpot's part and the winner
/// pool's part out of the player's account, and the fee climbs one step.
pub fn make_guess_sol(ctx: &mut MakeGuessSol, now: i64) -> (res: Result<
    (GuessMade, Vec<Transfer>),
    VaultError,
>)
    ensures
        match old(ctx).refusal(now) {
            Some(e) => res matches Err(err) && err == e && *final(ctx) == *old(ctx),
            None => {
                &&& res matches Ok((event, plan))
                &&& event == guess_event(
                    old(ctx).vault_key,
                    old(ctx).player,
                    old(ctx).vault.current_fee_amount,
                )
                &&& plan@ == guess_transfers(old(ctx).vault.current_fee_amount)
                &&& *final(ctx) == old(ctx).accepted(now)
            },
        },
        old(ctx).vault.may_become(final(ctx).vault),
        old(ctx).vault.wf() ==> final(ctx).vault.wf(),
        old(ctx).player_profile.wf() ==> final(ctx).player_profile.wf(),
{
    if ctx.vault.status != VaultStatus::Active.as_u8() {
        return Err(VaultError::VaultNotActive);
    }
    if now > ctx.vault.end_ts {
        return Err(VaultError::VaultExpired);
    }
    if !ctx.vault.is_sol_fee {
        return Err(VaultError::WrongFeeCurrency);
    }
    take_guess(
        &mut ctx.vault,
        &mut ctx.player_profile,
        ctx.vault_key,
        ctx.player,
        ctx.player_profile_bump,
        now,
    )
}

/// One attempt on a vault that takes its fees in the fee asset.
///
/// A refused attempt changes nothing. An accepted one counts the attempt in
/// the vault and in the player's profile, and on a vault that is not free
/// charges the current fee: the plan moves the jackpot's part and the winner
/// pool's part out of the player's account, and the fee climbs one step.
pub fn make_guess_spl(ctx: &mut MakeGuessSpl, now: i64) -> (res: Result<
    (GuessMade, Vec<Transfer>),
    VaultError,
>)
    ensures
        match old(ctx).refusal(now) {
            Some(e) => res matches Err(err) && err == e && *final(ctx) == *old(ctx),
            None => {
                &&& res matches Ok((event, plan))
                &&& event == guess_event(
                    old(ctx).vault_key,
                    old(ctx).player,
                    old(ctx).vault.current_fee_amount,
                )
                &&& plan@ == guess_transfers(old(ctx).vault.current_fee_amount)
                &&& *final(ctx) == old(ctx).accepted(now)
            },
        },
        old(ctx).vault.may_become(final(ctx).vault),
        old(ctx).vault.wf() ==> final(ctx).vault.wf(),
        old(ctx).player_profile.wf() ==> final(ctx).player_profile.wf(),
{
    ctx.player_fee_ata.check_fee_account(ctx.fee_mint, ctx.player)?;
    if ctx.vault.status != VaultStatus::Active.as_u8() {
        return Err(VaultError::VaultNotActive);
    }
    if now > ctx.vault.end_ts {
        return Err(VaultError::VaultExpired);
    }
    if ctx.vault.is_sol_fee {
        return Err(VaultError::WrongFeeCurrency);
    }
    if ctx.fee_mint != ctx.vault.fee_mint {
        return Err(VaultError::WrongFeeMint);
    }
    take_guess(
        &mut ctx.vault,
        &mut ctx.player_profile,
        ctx.vault_key,
        ctx.player,
        ctx.player_profile_bump,
        now,
    )
}

} // verus!
