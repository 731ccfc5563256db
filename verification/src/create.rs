//! Opening a vault.

use crate::accounts::{CreateVault, CreateVaultArgs};
use crate::error::VaultError;
use crate::fees::{spec_starting_fee, starting_fee};
use crate::ledger::{push_transfer, transfer_if_any, Slot, Transfer, VaultCreated};
use crate::state::{GlobalState, Vault, VaultStatus};
use vstd::prelude::*;

verus! {

/// The smallest prize above zero that may be locked into a vault.
pub const MIN_PRIZE_AMOUNT: u64 = 1000;

impl CreateVault {
    /// Why no vault is opened with `args` at `now`, if none is: the first of
    /// these that holds. The creator's fee account holds another asset than
    /// the one presented, or is not the creator's; the expiry is not after
    /// `now`; the creator's vault counter or score would overflow; no fee
    /// asset is named; the asset presented is not the registry's; the prize is
    /// above zero and below the minimum; the secret's length is not accepted;
    /// the starting fee or the registry's counter would overflow.
    pub open spec fn refusal(self, args: CreateVaultArgs, now: i64) -> Option<VaultError> {
        if self.creator_fee_ata.fee_mismatch(self.fee_mint, self.creator) is Some {
            self.creator_fee_ata.fee_mismatch(self.fee_mint, self.creator)
        } else if args.end_ts <= now {
            Some(VaultError::BadEndTs)
        } else if self.player_profile.with_vault_created(
            self.creator,
            now,
            self.player_profile_bump,
        ) is Err {
            Some(VaultError::MathOverflow)
        } else if args.fee_mint is None {
            Some(VaultError::PrizeRequiresMint)
        } else if self.fee_mint != self.global_state.skr_mint {
            Some(VaultError::UnsupportedFeeMint)
        } else if 0 < args.prize_amount < MIN_PRIZE_AMOUNT {
            Some(VaultError::PrizeTooSmall)
        } else if spec_starting_fee(args.base_fee_amount, args.pin_len) is Err {
            Some(spec_starting_fee(args.base_fee_amount, args.pin_len)->Err_0)
        } else if self.global_state.vault_count + 1 > u64::MAX {
            Some(VaultError::MathOverflow)
        } else {
            None
        }
    }

    /// The vault that `args` opens at `now`: active, with the registry's
    /// count as its id, the fee at its starting value, and every counter at
    /// zero.
    pub open spec fn new_vault(self, args: CreateVaultArgs, now: i64) -> Vault {
        Vault {
            creator: self.creator,
            status: VaultStatus::Active.code(),
            created_at: now,
            end_ts: args.end_ts,
            secret_hash: args.secret_hash,
            vault_id: self.global_state.vault_count,
            prize_amount: args.prize_amount,
            starting_fee_amount: spec_starting_fee(args.base_fee_amount, args.pin_len)->Ok_0,
            current_fee_amount: spec_starting_fee(args.base_fee_amount, args.pin_len)->Ok_0,
            attempt_count: 0,
            is_sol_fee: false,
            fee_mint: self.fee_mint,
            total_fees_collected: 0,
            winner_fee_pool: 0,
            winner: None,
            settled_at: None,
            paid_out: false,
            bump: self.vault_bump,
        }
    }

    /// The records after the vault was opened: the vault stands in its slot,
    /// the registry has counted it, and the creator's profile has one more
    /// vault.
    pub open spec fn opened(self, args: CreateVaultArgs, now: i64) -> CreateVault {
        CreateVault {
            global_state: GlobalState {
                vault_count: (self.global_state.vault_count + 1) as u64,
                ..self.global_state
            },
            vault: self.new_vault(args, now),
            player_profile: self.player_profile.with_vault_created(
                self.creator,
                now,
                self.player_profile_bump,
            )->Ok_0,
            ..self
        }
    }

    /// What is reported of the vault opened with `args`.
    pub open spec fn event(self, args: CreateVaultArgs) -> VaultCreated {
        VaultCreated {
            vault: self.vault_key,
            creator: self.creator,
            end_ts: args.end_ts,
            is_sol_fee: false,
            fee_mint: self.fee_mint,
            guess_fee_amount: spec_starting_fee(args.base_fee_amount, args.pin_len)->Ok_0,
        }
    }
}

/// What opening a vault with a prize of `prize_amount` moves: the prize, out
/// of the creator's account into the vault's prize custody.
pub open spec fn prize_escrow(prize_amount: u64) -> Seq<Transfer> {
    transfer_if_any(Slot::Creator, Slot::VaultPrize, prize_amount)
}

/// Opens a vault with `args` at `now`.
///
/// A refused request changes nothing. An accepted one writes the new vault
/// into `ctx.vault`, counts it in the registry and in the creator's profile,
/// and returns the report together with the movement that locks the prize.
pub fn create_vault(ctx: &mut CreateVault, args: CreateVaultArgs, now: i64) -> (res: Result<
    (VaultCreated, Vec<Transfer>),
    VaultError,
>)
    ensures
        match old(ctx).refusal(args, now) {
            Some(e) => res matches Err(err) && err == e && *final(ctx) == *old(ctx),
            None => {
                &&& res matches Ok((event, plan))
                &&& event == old(ctx).event(args)
                &&& plan@ == prize_escrow(args.prize_amount)
                &&& *final(ctx) == old(ctx).opened(args, now)
                &&& final(ctx).vault.wf()
            },
        },
        old(ctx).player_profile.wf() ==> final(ctx).player_profile.wf(),
{
    ctx.creator_fee_ata.check_fee_account(ctx.fee_mint, ctx.creator)?;
    if args.end_ts <= now {
        return Err(VaultError::BadEndTs);
    }
    let mut profile = ctx.player_profile;
    profile.record_vault_created(ctx.creator, now, ctx.player_profile_bump)?;
    if args.fee_mint.is_none() {
        return Err(VaultError::PrizeRequiresMint);
    }
    if ctx.fee_mint != ctx.global_state.skr_mint {
        return Err(VaultError::UnsupportedFeeMint);
    }
    if args.prize_amount > 0 && args.prize_amount < MIN_PRIZE_AMOUNT {
        return Err(VaultError::PrizeTooSmall);
    }
    let starting = starting_fee(args.base_fee_amount, args.pin_len)?;
    let vault_count = match ctx.global_state.vault_count.checked_add(1) {
        Some(n) => n,
        None => { return Err(VaultError::MathOverflow); },
    };
    let mut plan: Vec<Transfer> = Vec::new();
    push_transfer(&mut plan, Slot::Creator, Slot::VaultPrize, args.prize_amount);
    ctx.vault = Vault {
        creator: ctx.creator,
        status: VaultStatus::Active.as_u8(),
        created_at: now,
        end_ts: args.end_ts,
        secret_hash: args.secret_hash,
        vault_id: ctx.global_state.vault_count,
        prize_amount: args.prize_amount,
        starting_fee_amount: starting,
        current_fee_amount: starting,
        attempt_count: 0,
        is_sol_fee: false,
        fee_mint: ctx.fee_mint,
        total_fees_collected: 0,
        winner_fee_pool: 0,
        winner: None,
        settled_at: None,
        paid_out: false,
        bump: ctx.vault_bump,
    };
    ctx.player_profile = profile;
    ctx.global_state.vault_count = vault_count;
    Ok(
        (
            VaultCreated {
                vault: ctx.vault_key,
                creator: ctx.creator,
                end_ts: args.end_ts,
                is_sol_fee: false,
                fee_mint: ctx.fee_mint,
                guess_fee_amount: starting,
            },
            plan,
        ),
    )
}

} // verus!
