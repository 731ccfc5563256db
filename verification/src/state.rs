//! The persistent records: registry, jackpot, player profiles, vaults and
//! reward slots, with the invariants that every operation keeps.

use crate::error::VaultError;
use crate::keys::Pubkey;
use vstd::prelude::*;

verus! {

/// Score earned by one attempt.
pub const SCORE_PER_ATTEMPT: u64 = 1;

/// Score earned by opening a vault.
pub const SCORE_PER_VAULT_CREATED: u64 = 50;

/// Score earned by a win.
pub const SCORE_PER_WIN: u64 = 250;

/// Where a vault stands in its life. `Settled` and `Cancelled` are final.
#[derive(Clone, Copy, Debug, PartialEq, Eq, Structural)]
pub enum VaultStatus {
    /// Open to attempts and reveals.
    Active,
    /// A winner was recorded.
    Settled,
    /// Expired without a winner and reclaimed by its creator.
    Cancelled,
}

impl VaultStatus {
    /// The byte under which the status is stored in a vault.
    pub open spec fn code(self) -> u8 {
        match self {
            VaultStatus::Active => 1u8,
            VaultStatus::Settled => 2u8,
            VaultStatus::Cancelled => 3u8,
        }
    }

    /// The byte under which the status is stored in a vault.
    #[verifier::when_used_as_spec(code)]
    pub fn as_u8(self) -> (byte: u8)
        ensures
            byte == self.code(),
    {
        match self {
            VaultStatus::Active => 1,
            VaultStatus::Settled => 2,
            VaultStatus::Cancelled => 3,
        }
    }
}

/// The registry: who administers the game, which asset pays the fees, and how
/// many vaults were opened so far. The count is the next vault's id.
#[derive(Clone, Copy, Debug, PartialEq, Eq)]
pub struct GlobalState {
    pub authority: Pubkey,
    pub skr_mint: Pubkey,
    pub vault_count: u64,
    pub bump: u8,
}

/// The administrator's pointer to a featured vault. It has no effect on
/// settlement.
#[derive(Clone, Copy, Debug, PartialEq, Eq)]
pub struct MegaChallenge {
    pub authority: Pubkey,
    pub vault: Pubkey,
    pub bump: u8,
}

/// The jackpot accumulator: it only receives.
#[derive(Clone, Copy, Debug, PartialEq, Eq)]
pub struct MegaVault {
    pub bump: u8,
}

/// What one actor has done so far.
#[derive(Clone, Copy, Debug, PartialEq, Eq)]
pub struct PlayerProfile {
    pub authority: Pubkey,
    pub attempts: u64,
    pub wins: u64,
    pub vaults_created: u64,
    pub score: u64,
    pub last_seen_ts: i64,
    pub bump: u8,
}

/// One game: a committed secret, a locked prize and a fee ladder.
#[derive(Clone, Copy, Debug, PartialEq, Eq)]
pub struct Vault {
    pub creator: Pubkey,
    pub status: u8,
    pub created_at: i64,
    pub end_ts: i64,
    pub secret_hash: [u8; 32],
    pub vault_id: u64,
    pub prize_amount: u64,
    pub starting_fee_amount: u64,
    pub current_fee_amount: u64,
    pub attempt_count: u64,
    pub is_sol_fee: bool,
    pub fee_mint: Pubkey,
    pub total_fees_collected: u64,
    pub winner_fee_pool: u64,
    pub winner: Option<Pubkey>,
    pub settled_at: Option<i64>,
    pub paid_out: bool,
    pub bump: u8,
}

/// A bonus asset that the creator locked into a vault for its winner.
#[derive(Clone, Copy, Debug, PartialEq, Eq)]
pub struct VaultReward {
    pub vault: Pubkey,
    pub mint: Pubkey,
    pub token_program: Pubkey,
    pub amount: u64,
    pub claimed: bool,
    pub bump: u8,
}

impl GlobalState {
    /// The registry before it is initialized: nothing written.
    pub open spec fn spec_default() -> GlobalState {
        GlobalState {
            authority: Pubkey::spec_default(),
            skr_mint: Pubkey::spec_default(),
            vault_count: 0,
            bump: 0,
        }
    }
}

impl Default for GlobalState {
    fn default() -> (fresh: GlobalState)
        ensures
            fresh == GlobalState::spec_default(),
    {
        GlobalState {
            authority: Pubkey::default(),
            skr_mint: Pubkey::default(),
            vault_count: 0,
            bump: 0,
        }
    }
}

impl MegaChallenge {
    /// The pointer before the administrator has set it.
    pub open spec fn spec_default() -> MegaChallenge {
        MegaChallenge { authority: Pubkey::spec_default(), vault: Pubkey::spec_default(), bump: 0 }
    }
}

impl Default for MegaChallenge {
    fn default() -> (fresh: MegaChallenge)
        ensures
            fresh == MegaChallenge::spec_default(),
    {
        MegaChallenge { authority: Pubkey::default(), vault: Pubkey::default(), bump: 0 }
    }
}

impl Default for MegaVault {
    fn default() -> (fresh: MegaVault)
        ensures
            fresh == (MegaVault { bump: 0 }),
    {
        MegaVault { bump: 0 }
    }
}

impl PlayerProfile {
    /// The profile of an actor who has not been seen yet.
    pub open spec fn spec_default() -> PlayerProfile {
        PlayerProfile {
            authority: Pubkey::spec_default(),
            attempts: 0,
            wins: 0,
            vaults_created: 0,
            score: 0,
            last_seen_ts: 0,
            bump: 0,
        }
    }

    /// The score is what the counters have earned: 1 per attempt, 50 per vault
    /// opened, 250 per win.
    pub open spec fn wf(self) -> bool {
        self.score == self.attempts * SCORE_PER_ATTEMPT + self.vaults_created
            * SCORE_PER_VAULT_CREATED + self.wins * SCORE_PER_WIN
    }

    /// The profile after `who` was seen at `now`, with the counters moved by
    /// the given amounts and the score by `score`; `MathOverflow` if a counter
    /// or the score leaves 64 bits.
    pub open spec fn credited(
        self,
        who: Pubkey,
        now: i64,
        bump: u8,
        attempts: u64,
        wins: u64,
        vaults_created: u64,
        score: u64,
    ) -> Result<PlayerProfile, VaultError> {
        if self.attempts + attempts > u64::MAX || self.wins + wins > u64::MAX || self.vaults_created
            + vaults_created > u64::MAX || self.score + score > u64::MAX {
            Err(VaultError::MathOverflow)
        } else {
            Ok(
                PlayerProfile {
                    authority: who,
                    attempts: (self.attempts + attempts) as u64,
                    wins: (self.wins + wins) as u64,
                    vaults_created: (self.vaults_created + vaults_created) as u64,
                    score: (self.score + score) as u64,
                    last_seen_ts: now,
                    bump,
                },
            )
        }
    }

    /// The profile after one more attempt by `who`.
    pub open spec fn with_attempt(self, who: Pubkey, now: i64, bump: u8) -> Result<
        PlayerProfile,
        VaultError,
    > {
        self.credited(who, now, bump, 1, 0, 0, SCORE_PER_ATTEMPT)
    }

    /// The profile after `who` opened one more vault.
    pub open spec fn with_vault_created(self, who: Pubkey, now: i64, bump: u8) -> Result<
        PlayerProfile,
        VaultError,
    > {
        self.credited(who, now, bump, 0, 0, 1, SCORE_PER_VAULT_CREATED)
    }

    /// The profile after one more win by `who`.
    pub open spec fn with_win(self, who: Pubkey, now: i64, bump: u8) -> Result<
        PlayerProfile,
        VaultError,
    > {
        self.credited(who, now, bump, 0, 1, 0, SCORE_PER_WIN)
    }

    /// The profile after `who` was seen at `now` without doing anything.
    pub open spec fn touched(self, who: Pubkey, now: i64, bump: u8) -> PlayerProfile {
        PlayerProfile { authority: who, last_seen_ts: now, bump, ..self }
    }

    /// Records that `who` was seen at `now`.
    pub fn touch(&mut self, who: Pubkey, now: i64, bump: u8)
        ensures
            *final(self) == old(self).touched(who, now, bump),
            old(self).wf() ==> final(self).wf(),
    {
        self.authority = who;
        self.last_seen_ts = now;
        self.bump = bump;
    }

    /// Records one more attempt by `who`, worth `SCORE_PER_ATTEMPT`.
    pub fn record_attempt(&mut self, who: Pubkey, now: i64, bump: u8) -> (res: Result<
        (),
        VaultError,
    >)
        ensures
            match old(self).with_attempt(who, now, bump) {
                Ok(after) => res is Ok && *final(self) == after,
                Err(e) => res == Err::<(), VaultError>(e) && *final(self) == *old(self),
            },
            old(self).wf() ==> final(self).wf(),
    {
        let attempts = match self.attempts.checked_add(1) {
            Some(n) => n,
            None => { return Err(VaultError::MathOverflow); },
        };
        let score = match self.score.checked_add(SCORE_PER_ATTEMPT) {
            Some(n) => n,
            None => { return Err(VaultError::MathOverflow); },
        };
        self.authority = who;
        self.attempts = attempts;
        self.score = score;
        self.last_seen_ts = now;
        self.bump = bump;
        Ok(())
    }

    /// Records one more vault opened by `who`, worth `SCORE_PER_VAULT_CREATED`.
    pub fn record_vault_created(&mut self, who: Pubkey, now: i64, bump: u8) -> (res: Result<
        (),
        VaultError,
    >)
        ensures
            match old(self).with_vault_created(who, now, bump) {
                Ok(after) => res is Ok && *final(self) == after,
                Err(e) => res == Err::<(), VaultError>(e) && *final(self) == *old(self),
            },
            old(self).wf() ==> final(self).wf(),
    {
        let vaults_created = match self.vaults_created.checked_add(1) {
            Some(n) => n,
            None => { return Err(VaultError::MathOverflow); },
        };
        let score = match self.score.checked_add(SCORE_PER_VAULT_CREATED) {
            Some(n) => n,
            None => { return Err(VaultError::MathOverflow); },
        };
        self.authority = who;
        self.vaults_created = vaults_created;
        self.score = score;
        self.last_seen_ts = now;
        self.bump = bump;
        Ok(())
    }

    /// Records one more win by `who`, worth `SCORE_PER_WIN`.
    pub fn record_win(&mut self, who: Pubkey, now: i64, bump: u8) -> (res: Result<(), VaultError>)
        ensures
            match old(self).with_win(who, now, bump) {
                Ok(after) => res is Ok && *final(self) == after,
                Err(e) => res == Err::<(), VaultError>(e) && *final(self) == *old(self),
            },
            old(self).wf() ==> final(self).wf(),
    {
        let wins = match self.wins.checked_add(1) {
            Some(n) => n,
            None => { return Err(VaultError::MathOverflow); },
        };
        let score = match self.score.checked_add(SCORE_PER_WIN) {
            Some(n) => n,
            None => { return Err(VaultError::MathOverflow); },
        };
        self.authority = who;
        self.wins = wins;
        self.score = score;
        self.last_seen_ts = now;
        self.bump = bump;
        Ok(())
    }
}

impl Default for PlayerProfile {
    fn default() -> (fresh: PlayerProfile)
        ensures
            fresh == PlayerProfile::spec_default(),
            fresh.wf(),
    {
        PlayerProfile {
            authority: Pubkey::default(),
            attempts: 0,
            wins: 0,
            vaults_created: 0,
            score: 0,
            last_seen_ts: 0,
            bump: 0,
        }
    }
}

} // verus!

verus! {

impl Vault {
    /// A vault slot before a vault is created in it: nothing written.
    pub open spec fn spec_default() -> Vault {
        Vault {
            creator: Pubkey::spec_default(),
            status: 0,
            created_at: 0,
            end_ts: 0,
            secret_hash: vstd::array::spec_array_fill_for_copy_type::<u8, 32>(0u8),
            vault_id: 0,
            prize_amount: 0,
            starting_fee_amount: 0,
            current_fee_amount: 0,
            attempt_count: 0,
            is_sol_fee: false,
            fee_mint: Pubkey::spec_default(),
            total_fees_collected: 0,
            winner_fee_pool: 0,
            winner: None,
            settled_at: None,
            paid_out: false,
            bump: 0,
        }
    }

    /// Whether the vault is open to attempts and reveals.
    pub open spec fn is_active(self) -> bool {
        self.status == VaultStatus::Active.code()
    }

    /// Whether the vault's expiry has passed at `now`.
    pub open spec fn expired_at(self, now: i64) -> bool {
        now > self.end_ts
    }

    /// What holds of every vault that was created and then changed by the
    /// operations of this crate alone: the status is one of the three, it is
    /// `Settled` exactly when a winner is recorded, a winner comes with the
    /// time of the win, a cancelled vault was paid out, the winner pool is
    /// part of the fees collected, and the fee never fell below the starting
    /// fee, which is zero only for a vault that stays free.
    pub open spec fn wf(self) -> bool {
        &&& (self.status == VaultStatus::Active.code() || self.status == VaultStatus::Settled.code()
            || self.status == VaultStatus::Cancelled.code())
        &&& (self.status == VaultStatus::Settled.code() <==> self.winner is Some)
        &&& (self.winner is Some <==> self.settled_at is Some)
        &&& (self.status == VaultStatus::Cancelled.code() ==> self.paid_out)
        &&& self.winner_fee_pool <= self.total_fees_collected
        &&& self.starting_fee_amount <= self.current_fee_amount
        &&& (self.starting_fee_amount == 0 ==> self.current_fee_amount == 0
            && self.total_fees_collected == 0)
    }

    /// The changes that a vault may undergo: what was fixed at creation stays,
    /// the status only ever leaves `Active`, the winner and the paid-out flag
    /// are written once, and the fee and the running sums never go down.
    pub open spec fn may_become(self, next: Vault) -> bool {
        &&& next.creator == self.creator
        &&& next.created_at == self.created_at
        &&& next.end_ts == self.end_ts
        &&& next.secret_hash == self.secret_hash
        &&& next.vault_id == self.vault_id
        &&& next.prize_amount == self.prize_amount
        &&& next.starting_fee_amount == self.starting_fee_amount
        &&& next.is_sol_fee == self.is_sol_fee
        &&& next.fee_mint == self.fee_mint
        &&& next.bump == self.bump
        &&& (next.status == self.status || (self.is_active() && (next.status
            == VaultStatus::Settled.code() || next.status == VaultStatus::Cancelled.code())))
        &&& (self.paid_out ==> next.paid_out)
        &&& (self.winner is Some ==> next.winner == self.winner)
        &&& (self.settled_at is Some ==> next.settled_at == self.settled_at)
        &&& self.current_fee_amount <= next.current_fee_amount
        &&& self.attempt_count <= next.attempt_count
        &&& self.total_fees_collected <= next.total_fees_collected
        &&& self.winner_fee_pool <= next.winner_fee_pool
    }
}

impl Default for Vault {
    fn default() -> (fresh: Vault)
        ensures
            fresh == Vault::spec_default(),
    {
        Vault {
            creator: Pubkey::default(),
            status: 0,
            created_at: 0,
            end_ts: 0,
            secret_hash: [0u8; 32],
            vault_id: 0,
            prize_amount: 0,
            starting_fee_amount: 0,
            current_fee_amount: 0,
            attempt_count: 0,
            is_sol_fee: false,
            fee_mint: Pubkey::default(),
            total_fees_collected: 0,
            winner_fee_pool: 0,
            winner: None,
            settled_at: None,
            paid_out: false,
            bump: 0,
        }
    }
}

impl VaultReward {
    /// A reward slot before the first deposit: nothing written.
    pub open spec fn spec_default() -> VaultReward {
        VaultReward {
            vault: Pubkey::spec_default(),
            mint: Pubkey::spec_default(),
            token_program: Pubkey::spec_default(),
            amount: 0,
            claimed: false,
            bump: 0,
        }
    }

    /// Whether the slot has never received a deposit.
    pub open spec fn is_unset(self) -> bool {
        self.mint == Pubkey::spec_default()
    }

    /// A slot that was paid out holds nothing.
    pub open spec fn wf(self) -> bool {
        self.claimed ==> self.amount == 0
    }

    /// The changes that a reward slot may undergo: once it names its asset,
    /// its vault, asset and transfer protocol stay, and `claimed` is written
    /// once.
    pub open spec fn may_become(self, next: VaultReward) -> bool {
        !self.is_unset() ==> {
            &&& next.vault == self.vault
            &&& next.mint == self.mint
            &&& next.token_program == self.token_program
            &&& next.bump == self.bump
            &&& (self.claimed ==> next.claimed)
        }
    }
}

impl Default for VaultReward {
    fn default() -> (fresh: VaultReward)
        ensures
            fresh == VaultReward::spec_default(),
            fresh.is_unset(),
            fresh.wf(),
    {
        VaultReward {
            vault: Pubkey::default(),
            mint: Pubkey::default(),
            token_program: Pubkey::default(),
            amount: 0,
            claimed: false,
            bump: 0,
        }
    }
}

} // verus!
