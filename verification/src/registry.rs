//! The process-wide records: bootstrap of the registry and the jackpot, the
//! administrator's pointer to a featured vault, and first contact of a player.

use crate::accounts::{InitializeGlobal, SetMegaChallengeVault, TouchPlayer};
use crate::error::VaultError;
use crate::keys::Pubkey;
use crate::state::{GlobalState, MegaChallenge, MegaVault};
use vstd::prelude::*;

verus! {

impl InitializeGlobal {
    /// The records after bootstrap: the caller administers the registry,
    /// `skr_mint` is the asset that pays fees, and no vault was opened yet.
    pub open spec fn initialized(self, skr_mint: Pubkey) -> InitializeGlobal {
        InitializeGlobal {
            global_state: GlobalState {
                authority: self.authority,
                skr_mint,
                vault_count: 0,
                bump: self.global_state_bump,
            },
            mega_vault: MegaVault { bump: self.mega_vault_bump },
            ..self
        }
    }
}

/// Sets up the registry and the jackpot accumulator. It is never refused.
pub fn initialize_global(ctx: &mut InitializeGlobal, skr_mint: Pubkey) -> (res: Result<
    (),
    VaultError,
>)
    ensures
        res is Ok,
        *final(ctx) == old(ctx).initialized(skr_mint),
{
    ctx.global_state.authority = ctx.authority;
    ctx.global_state.skr_mint = skr_mint;
    ctx.global_state.vault_count = 0;
    ctx.global_state.bump = ctx.global_state_bump;
    ctx.mega_vault.bump = ctx.mega_vault_bump;
    Ok(())
}

impl SetMegaChallengeVault {
    /// Why the pointer is not set, if it is not: the caller does not
    /// administer the registry.
    pub open spec fn refusal(self) -> Option<VaultError> {
        if self.authority != self.global_state.authority {
            Some(VaultError::NotAuthorized)
        } else {
            None
        }
    }

    /// The records after the pointer was set to `vault`.
    pub open spec fn pointed_at(self, vault: Pubkey) -> SetMegaChallengeVault {
        SetMegaChallengeVault {
            mega_challenge: MegaChallenge {
                authority: self.authority,
                vault,
                bump: self.mega_challenge_bump,
            },
            ..self
        }
    }
}

/// The administrator points at the featured vault `vault`. Anyone else is
/// refused with `NotAuthorized`, and nothing changes.
pub fn set_mega_challenge_vault(ctx: &mut SetMegaChallengeVault, vault: Pubkey) -> (res: Result<
    (),
    VaultError,
>)
    ensures
        match old(ctx).refusal() {
            Some(e) => res matches Err(err) && err == e && *final(ctx) == *old(ctx),
            None => res is Ok && *final(ctx) == old(ctx).pointed_at(vault),
        },
{
    if ctx.authority != ctx.global_state.authority {
        return Err(VaultError::NotAuthorized);
    }
    ctx.mega_challenge.authority = ctx.authority;
    ctx.mega_challenge.vault = vault;
    ctx.mega_challenge.bump = ctx.mega_challenge_bump;
    Ok(())
}

impl TouchPlayer {
    /// The records after the player was seen at `now`.
    pub open spec fn touched(self, now: i64) -> TouchPlayer {
        TouchPlayer {
            player_profile: self.player_profile.touched(
                self.player,
                now,
                self.player_profile_bump,
            ),
            ..self
        }
    }
}

/// Records that the player was seen at `now`, which creates the profile of a
/// player who is new. Counters and score stay as they are. It is never
/// refused.
pub fn touch_player(ctx: &mut TouchPlayer, now: i64) -> (res: Result<(), VaultError>)
    ensures
        res is Ok,
        *final(ctx) == old(ctx).touched(now),
        old(ctx).player_profile.wf() ==> final(ctx).player_profile.wf(),
{
    ctx.player_profile.touch(ctx.player, now, ctx.player_profile_bump);
    Ok(())
}

} // verus!
