use vault_game::accounts::{AddReward, ClaimReward, ReclaimReward, TokenAccount};
use vault_game::error::VaultError;
use vault_game::keys::Pubkey;
use vault_game::ledger::{Slot, Transfer};
use vault_game::reward::{add_reward, claim_reward, reclaim_reward};
use vault_game::state::{Vault, VaultReward};

const END: i64 = 5_000;

fn id(byte: u8) -> Pubkey {
    Pubkey { bytes: [byte; 32] }
}

fn maker() -> Pubkey {
    id(1)
}

fn champion() -> Pubkey {
    id(2)
}

fn slot_key() -> Pubkey {
    id(7)
}

fn bonus_mint() -> Pubkey {
    id(20)
}

fn protocol() -> Pubkey {
    id(30)
}

fn expired_vault(winner: Option<Pubkey>) -> Vault {
    Vault {
        creator: maker(),
        status: if winner.is_some() { 2 } else { 1 },
        end_ts: END,
        settled_at: winner.map(|_| END - 1),
        winner,
        ..Vault::default()
    }
}

fn deposit_into(reward: VaultReward) -> AddReward {
    AddReward {
        vault: expired_vault(None),
        vault_key: slot_key(),
        reward,
        reward_mint: bonus_mint(),
        creator_reward_ata: TokenAccount { mint: bonus_mint(), owner: maker(), amount: 100 },
        creator: maker(),
        token_program: protocol(),
        reward_bump: 250,
    }
}

fn filled_slot(amount: u64) -> VaultReward {
    VaultReward {
        vault: slot_key(),
        mint: bonus_mint(),
        token_program: protocol(),
        amount,
        claimed: false,
        bump: 250,
    }
}

fn winner_claims(reward: VaultReward) -> ClaimReward {
    ClaimReward {
        vault: expired_vault(Some(champion())),
        vault_key: slot_key(),
        reward,
        reward_mint: bonus_mint(),
        winner: champion(),
        token_program: protocol(),
    }
}

fn maker_reclaims(reward: VaultReward) -> ReclaimReward {
    ReclaimReward {
        vault: expired_vault(None),
        vault_key: slot_key(),
        reward,
        reward_mint: bonus_mint(),
        creator: maker(),
        token_program: protocol(),
    }
}

#[test]
fn reward_round_trip() {
    let mut first = deposit_into(VaultReward::default());
    assert_eq!(
        add_reward(&mut first, 5),
        Ok(vec![Transfer { from: Slot::Creator, to: Slot::VaultReward, amount: 5 }])
    );
    assert_eq!(first.reward, filled_slot(5));

    let mut second = deposit_into(first.reward);
    assert_eq!(
        add_reward(&mut second, 5),
        Ok(vec![Transfer { from: Slot::Creator, to: Slot::VaultReward, amount: 5 }])
    );
    assert_eq!(second.reward, filled_slot(10));

    let mut claim = winner_claims(second.reward);
    assert_eq!(
        claim_reward(&mut claim, END + 1),
        Ok(vec![Transfer { from: Slot::VaultReward, to: Slot::Winner, amount: 10 }])
    );
    assert!(claim.reward.claimed);
    assert_eq!(claim.reward.amount, 0);
    assert_eq!(claim.reward, VaultReward { amount: 0, claimed: true, ..filled_slot(0) });

    let before = claim;
    assert_eq!(claim_reward(&mut claim, END + 2), Err(VaultError::RewardAlreadyClaimed));
    assert_eq!(claim, before);

    let mut late = deposit_into(claim.reward);
    assert_eq!(add_reward(&mut late, 5), Err(VaultError::RewardAlreadyClaimed));
    assert_eq!(late.reward, claim.reward);
}

#[test]
fn reward_goes_back_to_the_creator() {
    let mut reclaim = maker_reclaims(filled_slot(12));
    assert_eq!(reclaim_reward(&mut reclaim, END), Err(VaultError::VaultNotExpired));
    assert_eq!(
        reclaim_reward(&mut reclaim, END + 1),
        Ok(vec![Transfer { from: Slot::VaultReward, to: Slot::Creator, amount: 12 }])
    );
    assert_eq!(reclaim.reward, VaultReward { amount: 0, claimed: true, ..filled_slot(0) });
    assert_eq!(reclaim_reward(&mut reclaim, END + 1), Err(VaultError::RewardAlreadyClaimed));
}

#[test]
fn reward_slots_are_independent() {
    let mut gold = winner_claims(filled_slot(3));
    let mut silver = ClaimReward {
        reward: VaultReward { mint: id(21), ..filled_slot(8) },
        reward_mint: id(21),
        ..winner_claims(filled_slot(0))
    };
    assert_eq!(
        claim_reward(&mut gold, END + 1),
        Ok(vec![Transfer { from: Slot::VaultReward, to: Slot::Winner, amount: 3 }])
    );
    assert_eq!(
        claim_reward(&mut silver, END + 1),
        Ok(vec![Transfer { from: Slot::VaultReward, to: Slot::Winner, amount: 8 }])
    );
}

#[test]
fn add_reward_refusals_in_order() {
    let mut ctx = deposit_into(VaultReward::default());
    ctx.creator_reward_ata.owner = id(99);
    ctx.creator_reward_ata.mint = id(98);
    assert_eq!(add_reward(&mut ctx, 0), Err(VaultError::WrongFeeOwner));
    ctx.creator_reward_ata.owner = maker();
    assert_eq!(add_reward(&mut ctx, 0), Err(VaultError::RewardWrongMint));
    ctx.creator_reward_ata.mint = bonus_mint();
    ctx.vault.creator = id(50);
    assert_eq!(add_reward(&mut ctx, 0), Err(VaultError::BadRewardAmount));
    assert_eq!(add_reward(&mut ctx, 1), Err(VaultError::NotCreator));
    assert_eq!(ctx.reward, VaultReward::default());

    let mut other_mint = deposit_into(VaultReward { mint: id(21), token_program: id(31), claimed: true, ..filled_slot(1) });
    other_mint.creator_reward_ata.mint = bonus_mint();
    assert_eq!(add_reward(&mut other_mint, 1), Err(VaultError::RewardWrongMint));
    let mut other_protocol =
        deposit_into(VaultReward { token_program: id(31), claimed: true, ..filled_slot(1) });
    assert_eq!(add_reward(&mut other_protocol, 1), Err(VaultError::RewardWrongTokenProgram));
    let mut claimed = deposit_into(VaultReward { claimed: true, amount: u64::MAX, ..filled_slot(0) });
    assert_eq!(add_reward(&mut claimed, 1), Err(VaultError::RewardAlreadyClaimed));
    let mut full = deposit_into(filled_slot(u64::MAX));
    assert_eq!(add_reward(&mut full, 1), Err(VaultError::MathOverflow));
    assert_eq!(full.reward, filled_slot(u64::MAX));
    let mut nearly_full = deposit_into(filled_slot(u64::MAX - 1));
    assert!(add_reward(&mut nearly_full, 1).is_ok());
    assert_eq!(nearly_full.reward.amount, u64::MAX);
}

#[test]
fn add_reward_is_open_at_any_time() {
    let mut ctx = deposit_into(VaultReward::default());
    ctx.vault = expired_vault(Some(champion()));
    ctx.vault.paid_out = true;
    assert!(add_reward(&mut ctx, u64::MAX).is_ok());
    assert_eq!(ctx.reward, filled_slot(u64::MAX));
    assert_eq!(ctx.vault, Vault { paid_out: true, ..expired_vault(Some(champion())) });
}

#[test]
fn claim_reward_refusals_in_order() {
    let mut ctx = ClaimReward {
        vault: Vault { end_ts: END, creator: maker(), ..Vault::default() },
        vault_key: id(70),
        reward: VaultReward { claimed: true, amount: 0, ..filled_slot(0) },
        reward_mint: id(71),
        winner: champion(),
        token_program: id(72),
    };
    assert_eq!(claim_reward(&mut ctx, END), Err(VaultError::RewardWrongVault));
    ctx.vault_key = slot_key();
    assert_eq!(claim_reward(&mut ctx, END), Err(VaultError::RewardWrongMint));
    ctx.reward_mint = bonus_mint();
    assert_eq!(claim_reward(&mut ctx, END), Err(VaultError::RewardWrongTokenProgram));
    ctx.token_program = protocol();
    assert_eq!(claim_reward(&mut ctx, END), Err(VaultError::VaultNotExpired));
    assert_eq!(claim_reward(&mut ctx, END + 1), Err(VaultError::NotWinner));
    ctx.vault.winner = Some(maker());
    assert_eq!(claim_reward(&mut ctx, END + 1), Err(VaultError::NotWinner));
    ctx.vault.winner = Some(champion());
    assert_eq!(claim_reward(&mut ctx, END + 1), Err(VaultError::RewardAlreadyClaimed));
    ctx.reward.claimed = false;
    assert_eq!(claim_reward(&mut ctx, END + 1), Err(VaultError::BadRewardAmount));
    ctx.reward.amount = 1;
    assert_eq!(
        claim_reward(&mut ctx, END + 1),
        Ok(vec![Transfer { from: Slot::VaultReward, to: Slot::Winner, amount: 1 }])
    );
}

#[test]
fn reclaim_reward_refusals_in_order() {
    let mut ctx = ReclaimReward {
        vault: Vault { end_ts: END, creator: id(60), winner: Some(champion()), ..Vault::default() },
        vault_key: id(70),
        reward: VaultReward { claimed: true, amount: 0, ..filled_slot(0) },
        reward_mint: id(71),
        creator: maker(),
        token_program: id(72),
    };
    assert_eq!(reclaim_reward(&mut ctx, END), Err(VaultError::RewardWrongVault));
    ctx.vault_key = slot_key();
    assert_eq!(reclaim_reward(&mut ctx, END), Err(VaultError::RewardWrongMint));
    ctx.reward_mint = bonus_mint();
    assert_eq!(reclaim_reward(&mut ctx, END), Err(VaultError::RewardWrongTokenProgram));
    ctx.token_program = protocol();
    assert_eq!(reclaim_reward(&mut ctx, END), Err(VaultError::VaultNotExpired));
    assert_eq!(reclaim_reward(&mut ctx, END + 1), Err(VaultError::AlreadyHasWinner));
    ctx.vault.winner = None;
    assert_eq!(reclaim_reward(&mut ctx, END + 1), Err(VaultError::NotCreator));
    ctx.vault.creator = maker();
    assert_eq!(reclaim_reward(&mut ctx, END + 1), Err(VaultError::RewardAlreadyClaimed));
    ctx.reward.claimed = false;
    assert_eq!(reclaim_reward(&mut ctx, END + 1), Err(VaultError::BadRewardAmount));
    ctx.reward.amount = u64::MAX;
    assert_eq!(
        reclaim_reward(&mut ctx, END + 1),
        Ok(vec![Transfer { from: Slot::VaultReward, to: Slot::Creator, amount: u64::MAX }])
    );
}

#[test]
fn winner_and_creator_cannot_both_take_a_reward() {
    let mut claim = winner_claims(filled_slot(10));
    claim_reward(&mut claim, END + 1).unwrap();
    let mut reclaim = ReclaimReward { reward: claim.reward, ..maker_reclaims(filled_slot(0)) };
    assert_eq!(reclaim_reward(&mut reclaim, END + 1), Err(VaultError::RewardAlreadyClaimed));

    let mut won = ReclaimReward { vault: expired_vault(Some(champion())), ..maker_reclaims(filled_slot(10)) };
    assert_eq!(reclaim_reward(&mut won, END + 1), Err(VaultError::AlreadyHasWinner));
    let mut nobody = ClaimReward { vault: expired_vault(None), ..winner_claims(filled_slot(10)) };
    assert_eq!(claim_reward(&mut nobody, END + 1), Err(VaultError::NotWinner));
}
