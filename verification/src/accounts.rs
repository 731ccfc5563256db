//! The records and identities that each operation works on.

use crate::error::VaultError;
use crate::keys::Pubkey;
use crate::state::{GlobalState, MegaChallenge, MegaVault, PlayerProfile, Vault, VaultReward};
use vstd::prelude::*;

verus! {

/// A custody account of one asset, as the ledger reports it.
#[derive(Clone, Copy, Debug, PartialEq, Eq)]
pub struct TokenAccount {
    pub mint: Pubkey,
    pub owner: Pubkey,
    pub amount: u64,
}

impl TokenAccount {
    /// Why the account cannot carry the fee asset `mint` for `owner`, if it
    /// cannot: it holds another asset, or it belongs to someone else.
    pub open spec fn fee_mismatch(self, mint: Pubkey, owner: Pubkey) -> Option<VaultError> {
        if self.mint != mint {
            Some(VaultError::WrongFeeMint)
        } else if self.owner != owner {
            Some(VaultError::WrongFeeOwner)
        } else {
            None
        }
    }

    /// Checks that the account holds the fee asset `mint` and belongs to
    /// `owner`.
    pub fn check_fee_account(&self, mint: Pubkey, owner: Pubkey) -> (res: Result<(), VaultError>)
        ensures
            match self.fee_mismatch(mint, owner) {
                Some(e) => res matches Err(err) && err == e,
                None => res is Ok,
            },
    {
        if self.mint != mint {
            return Err(VaultError::WrongFeeMint);
        }
        if self.owner != owner {
            return Err(VaultError::WrongFeeOwner);
        }
        Ok(())
    }
}

/// What the creator chooses when opening a vault.
#[derive(Clone, Copy, Debug, PartialEq, Eq)]
pub struct CreateVaultArgs {
    pub end_ts: i64,
    pub secret_hash: [u8; 32],
    /// The prize to lock; 0 opens a vault without a prize.
    pub prize_amount: u64,
    /// The base attempt fee; 0 opens a free vault.
    pub base_fee_amount: u64,
    /// The secret's number of digits, which scales the starting fee.
    pub pin_len: u8,
    /// The asset that fees are paid in.
    pub fee_mint: Option<Pubkey>,
}

/// Bootstrap of the registry and the jackpot accumulator.
#[derive(Clone, Copy, Debug, PartialEq, Eq)]
pub struct InitializeGlobal {
    pub global_state: GlobalState,
    pub mega_vault: MegaVault,
    pub authority: Pubkey,
    pub global_state_bump: u8,
    pub mega_vault_bump: u8,
}

/// First contact of a player.
#[derive(Clone, Copy, Debug, PartialEq, Eq)]
pub struct TouchPlayer {
    pub player_profile: PlayerProfile,
    pub player: Pubkey,
    pub player_profile_bump: u8,
}

/// The administrator pointing at a featured vault.
#[derive(Clone, Copy, Debug, PartialEq, Eq)]
pub struct SetMegaChallengeVault {
    pub global_state: GlobalState,
    pub mega_challenge: MegaChallenge,
    pub authority: Pubkey,
    pub mega_challenge_bump: u8,
}

/// Opening a vault: `vault` is the empty slot at `vault_key` that receives it.
#[derive(Clone, Copy, Debug, PartialEq, Eq)]
pub struct CreateVault {
    pub global_state: GlobalState,
    pub vault: Vault,
    pub vault_key: Pubkey,
    pub player_profile: PlayerProfile,
    pub fee_mint: Pubkey,
    pub creator_fee_ata: TokenAccount,
    pub creator: Pubkey,
    pub vault_bump: u8,
    pub player_profile_bump: u8,
}

/// An attempt paid in the native currency.
#[derive(Clone, Copy, Debug, PartialEq, Eq)]
pub struct MakeGuessSol {
    pub vault: Vault,
    pub vault_key: Pubkey,
    pub player_profile: PlayerProfile,
    pub player: Pubkey,
    pub player_profile_bump: u8,
}

/// An attempt paid in the fee asset.
#[derive(Clone, Copy, Debug, PartialEq, Eq)]
pub struct MakeGuessSpl {
    pub vault: Vault,
    pub vault_key: Pubkey,
    pub player_profile: PlayerProfile,
    pub player: Pubkey,
    pub fee_mint: Pubkey,
    pub player_fee_ata: TokenAccount,
    pub player_profile_bump: u8,
}

/// A reveal of the secret.
#[derive(Clone, Copy, Debug, PartialEq, Eq)]
pub struct ClaimWin {
    pub vault: Vault,
    pub vault_key: Pubkey,
    pub player_profile: PlayerProfile,
    pub player: Pubkey,
    pub player_profile_bump: u8,
}

/// The winner collecting prize and pool. `vault_fee_ata` is the vault's custody
/// of the pool, `winner_fee_ata` the account that is paid.
#[derive(Clone, Copy, Debug, PartialEq, Eq)]
pub struct ClaimPrize {
    pub vault: Vault,
    pub fee_mint: Pubkey,
    pub vault_fee_ata: TokenAccount,
    pub winner_fee_ata: TokenAccount,
    pub winner: Pubkey,
}

/// The creator taking back the prize of a vault that nobody won.
#[derive(Clone, Copy, Debug, PartialEq, Eq)]
pub struct ReclaimPrize {
    pub vault: Vault,
    pub fee_mint: Pubkey,
    pub vault_fee_ata: TokenAccount,
    pub creator_fee_ata: TokenAccount,
    pub creator: Pubkey,
}

/// The creator locking a bonus asset into the slot `reward` of a vault.
#[derive(Clone, Copy, Debug, PartialEq, Eq)]
pub struct AddReward {
    pub vault: Vault,
    pub vault_key: Pubkey,
    pub reward: VaultReward,
    pub reward_mint: Pubkey,
    pub creator_reward_ata: TokenAccount,
    pub creator: Pubkey,
    pub token_program: Pubkey,
    pub reward_bump: u8,
}

/// The winner collecting one bonus asset.
#[derive(Clone, Copy, Debug, PartialEq, Eq)]
pub struct ClaimReward {
    pub vault: Vault,
    pub vault_key: Pubkey,
    pub reward: VaultReward,
    pub reward_mint: Pubkey,
    pub winner: Pubkey,
    pub token_program: Pubkey,
}

/// The creator taking back one bonus asset of a vault that nobody won.
#[derive(Clone, Copy, Debug, PartialEq, Eq)]
pub struct ReclaimReward {
    pub vault: Vault,
    pub vault_key: Pubkey,
    pub reward: VaultReward,
    pub reward_mint: Pubkey,
    pub creator: Pubkey,
    pub token_program: Pubkey,
}

} // verus!
