use vault_game::accounts::{
    ClaimPrize, ClaimWin, CreateVault, CreateVaultArgs, InitializeGlobal, MakeGuessSol,
    MakeGuessSpl, ReclaimPrize, SetMegaChallengeVault, TokenAccount, TouchPlayer,
};
use vault_game::create::create_vault;
use vault_game::error::VaultError;
use vault_game::guess::{make_guess_sol, make_guess_spl};
use vault_game::keys::{bytes32_eq, Pubkey};
use vault_game::registry::{initialize_global, set_mega_challenge_vault, touch_player};
use vault_game::settle::{claim_prize, claim_win, reclaim_prize, record_reveal};
use vault_game::state::{
    GlobalState, MegaChallenge, MegaVault, PlayerProfile, Vault, VaultReward, VaultStatus,
    SCORE_PER_ATTEMPT, SCORE_PER_VAULT_CREATED, SCORE_PER_WIN,
};

const T0: i64 = 1_000;

fn k(byte: u8) -> Pubkey {
    Pubkey { bytes: [byte; 32] }
}

fn mint() -> Pubkey {
    k(9)
}

fn owner() -> Pubkey {
    k(1)
}

fn guesser() -> Pubkey {
    k(2)
}

fn new_vault_ctx() -> CreateVault {
    CreateVault {
        global_state: GlobalState { authority: k(100), skr_mint: mint(), vault_count: 3, bump: 1 },
        vault: Vault::default(),
        vault_key: k(7),
        player_profile: PlayerProfile::default(),
        fee_mint: mint(),
        creator_fee_ata: TokenAccount { mint: mint(), owner: owner(), amount: 0 },
        creator: owner(),
        vault_bump: 2,
        player_profile_bump: 3,
    }
}

fn good_args() -> CreateVaultArgs {
    CreateVaultArgs {
        end_ts: T0 + 1,
        secret_hash: [5u8; 32],
        prize_amount: 0,
        base_fee_amount: 10,
        pin_len: 4,
        fee_mint: Some(mint()),
    }
}

fn live_vault() -> Vault {
    Vault {
        creator: owner(),
        status: 1,
        created_at: T0,
        end_ts: T0 + 100,
        secret_hash: [5u8; 32],
        vault_id: 3,
        prize_amount: 1000,
        starting_fee_amount: 250,
        current_fee_amount: 250,
        fee_mint: mint(),
        bump: 2,
        ..Vault::default()
    }
}

fn asset_guess(vault: Vault) -> MakeGuessSpl {
    MakeGuessSpl {
        vault,
        vault_key: k(7),
        player_profile: PlayerProfile::default(),
        player: guesser(),
        fee_mint: mint(),
        player_fee_ata: TokenAccount { mint: mint(), owner: guesser(), amount: 0 },
        player_profile_bump: 4,
    }
}

fn native_guess(vault: Vault) -> MakeGuessSol {
    MakeGuessSol {
        vault,
        vault_key: k(7),
        player_profile: PlayerProfile::default(),
        player: guesser(),
        player_profile_bump: 4,
    }
}

#[test]
fn create_vault_refusals_in_order() {
    let mut ctx = new_vault_ctx();
    ctx.creator_fee_ata = TokenAccount { mint: k(8), owner: k(50), amount: 0 };
    ctx.player_profile.vaults_created = u64::MAX;
    ctx.fee_mint = k(10);
    ctx.global_state.vault_count = u64::MAX;
    let mut args = CreateVaultArgs {
        end_ts: T0,
        prize_amount: 999,
        base_fee_amount: u64::MAX,
        pin_len: 7,
        fee_mint: None,
        ..good_args()
    };
    let untouched = ctx;

    assert_eq!(create_vault(&mut ctx, args, T0), Err(VaultError::WrongFeeMint));
    ctx.creator_fee_ata.mint = k(10);
    assert_eq!(create_vault(&mut ctx, args, T0), Err(VaultError::WrongFeeOwner));
    ctx.creator_fee_ata.owner = owner();
    assert_eq!(create_vault(&mut ctx, args, T0), Err(VaultError::BadEndTs));
    assert_eq!(create_vault(&mut ctx, args, T0 + 5), Err(VaultError::BadEndTs));
    args.end_ts = T0 + 1;
    assert_eq!(create_vault(&mut ctx, args, T0), Err(VaultError::MathOverflow));
    ctx.player_profile.vaults_created = 0;
    ctx.player_profile.score = u64::MAX - 49;
    assert_eq!(create_vault(&mut ctx, args, T0), Err(VaultError::MathOverflow));
    ctx.player_profile.score = u64::MAX - 50;
    assert_eq!(create_vault(&mut ctx, args, T0), Err(VaultError::PrizeRequiresMint));
    args.fee_mint = Some(k(77));
    assert_eq!(create_vault(&mut ctx, args, T0), Err(VaultError::UnsupportedFeeMint));
    ctx.fee_mint = mint();
    ctx.creator_fee_ata.mint = mint();
    assert_eq!(create_vault(&mut ctx, args, T0), Err(VaultError::PrizeTooSmall));
    args.prize_amount = 1;
    assert_eq!(create_vault(&mut ctx, args, T0), Err(VaultError::PrizeTooSmall));
    args.prize_amount = 1000;
    assert_eq!(create_vault(&mut ctx, args, T0), Err(VaultError::BadPinLen));
    args.pin_len = 3;
    assert_eq!(create_vault(&mut ctx, args, T0), Err(VaultError::MathOverflow));
    args.base_fee_amount = u64::MAX / 100;
    assert_eq!(create_vault(&mut ctx, args, T0), Err(VaultError::MathOverflow));
    assert_eq!(ctx.vault, untouched.vault);
    assert_eq!(ctx.global_state, untouched.global_state);
    assert_eq!(ctx.player_profile.vaults_created, 0);

    ctx.global_state.vault_count = u64::MAX - 1;
    let (event, plan) = create_vault(&mut ctx, args, T0).unwrap();
    assert_eq!(event.guess_fee_amount, 18446744073709551600);
    assert_eq!(plan.len(), 1);
    assert_eq!(ctx.vault.vault_id, u64::MAX - 1);
    assert_eq!(ctx.global_state.vault_count, u64::MAX);
    assert_eq!(ctx.player_profile.score, u64::MAX);
    assert_eq!(ctx.vault.fee_mint, mint());
}

#[test]
fn create_vault_names_any_mint_in_its_arguments() {
    let mut ctx = new_vault_ctx();
    let args = CreateVaultArgs { fee_mint: Some(k(200)), ..good_args() };
    assert!(create_vault(&mut ctx, args, T0).is_ok());
    assert_eq!(ctx.vault.fee_mint, mint());
}

#[test]
fn make_guess_spl_refusals_in_order() {
    let mut ctx = asset_guess(Vault { status: 2, is_sol_fee: true, fee_mint: k(11), ..live_vault() });
    ctx.player_fee_ata = TokenAccount { mint: k(12), owner: k(13), amount: 0 };
    ctx.player_profile.attempts = u64::MAX;
    let now = T0 + 101;

    assert_eq!(make_guess_spl(&mut ctx, now), Err(VaultError::WrongFeeMint));
    ctx.player_fee_ata.mint = mint();
    assert_eq!(make_guess_spl(&mut ctx, now), Err(VaultError::WrongFeeOwner));
    ctx.player_fee_ata.owner = guesser();
    assert_eq!(make_guess_spl(&mut ctx, now), Err(VaultError::VaultNotActive));
    ctx.vault.status = 3;
    assert_eq!(make_guess_spl(&mut ctx, now), Err(VaultError::VaultNotActive));
    ctx.vault.status = 0;
    assert_eq!(make_guess_spl(&mut ctx, now), Err(VaultError::VaultNotActive));
    ctx.vault.status = VaultStatus::Active.as_u8();
    assert_eq!(make_guess_spl(&mut ctx, now), Err(VaultError::VaultExpired));
    let now = T0 + 100;
    assert_eq!(make_guess_spl(&mut ctx, now), Err(VaultError::WrongFeeCurrency));
    ctx.vault.is_sol_fee = false;
    assert_eq!(make_guess_spl(&mut ctx, now), Err(VaultError::WrongFeeMint));
    ctx.vault.fee_mint = mint();
    assert_eq!(make_guess_spl(&mut ctx, now), Err(VaultError::MathOverflow));
    ctx.player_profile.attempts = 0;
    ctx.player_profile.score = u64::MAX;
    assert_eq!(make_guess_spl(&mut ctx, now), Err(VaultError::MathOverflow));
    ctx.player_profile.score = 0;
    assert!(make_guess_spl(&mut ctx, now).is_ok());
}

#[test]
fn make_guess_sol_refusals_in_order() {
    let mut ctx = native_guess(Vault { status: 3, ..live_vault() });
    assert_eq!(make_guess_sol(&mut ctx, T0 + 101), Err(VaultError::VaultNotActive));
    ctx.vault.status = 1;
    assert_eq!(make_guess_sol(&mut ctx, T0 + 101), Err(VaultError::VaultExpired));
    assert_eq!(make_guess_sol(&mut ctx, T0 + 100), Err(VaultError::WrongFeeCurrency));
    ctx.vault.is_sol_fee = true;
    ctx.player_profile.score = u64::MAX;
    assert_eq!(make_guess_sol(&mut ctx, T0 + 100), Err(VaultError::MathOverflow));
    ctx.player_profile.score = 7;
    assert!(make_guess_sol(&mut ctx, T0 + 100).is_ok());
    assert_eq!(ctx.player_profile.score, 8);
}

#[test]
fn guess_overflow_leaves_everything_unchanged() {
    let cases = [
        Vault { attempt_count: u64::MAX, current_fee_amount: 0, starting_fee_amount: 0, ..live_vault() },
        Vault { attempt_count: u64::MAX, ..live_vault() },
        Vault { total_fees_collected: u64::MAX - 249, ..live_vault() },
        Vault { winner_fee_pool: u64::MAX - 199, ..live_vault() },
        Vault { current_fee_amount: u64::MAX / 80 + 1, ..live_vault() },
        Vault { current_fee_amount: u64::MAX, ..live_vault() },
    ];
    for vault in cases {
        let mut ctx = asset_guess(vault);
        let before = ctx;
        assert_eq!(make_guess_spl(&mut ctx, T0), Err(VaultError::MathOverflow));
        assert_eq!(ctx, before);
    }
    let mut edge = asset_guess(Vault {
        total_fees_collected: u64::MAX - 250,
        winner_fee_pool: u64::MAX - 200,
        attempt_count: u64::MAX - 1,
        ..live_vault()
    });
    assert!(make_guess_spl(&mut edge, T0).is_ok());
    assert_eq!(edge.vault.total_fees_collected, u64::MAX);
    assert_eq!(edge.vault.winner_fee_pool, u64::MAX);
    assert_eq!(edge.vault.attempt_count, u64::MAX);
    assert_eq!(edge.vault.current_fee_amount, 300);
}

#[test]
fn largest_fee_that_can_be_charged() {
    let fee = u64::MAX / 80;
    let mut ctx = asset_guess(Vault { current_fee_amount: fee, ..live_vault() });
    let (event, _) = make_guess_spl(&mut ctx, T0).unwrap();
    assert_eq!(event.fee, 230584300921369395);
    assert_eq!(event.winner_cut, 184467440737095516);
    assert_eq!(event.mega_cut, 46116860184273879);
    assert_eq!(ctx.vault.current_fee_amount, 276701161105643274);
}

#[test]
fn claim_win_refusals_in_order() {
    let mut ctx = ClaimWin {
        vault: Vault { status: 3, winner: Some(k(60)), ..live_vault() },
        vault_key: k(7),
        player_profile: PlayerProfile { wins: u64::MAX, ..PlayerProfile::default() },
        player: guesser(),
        player_profile_bump: 4,
    };
    let late = T0 + 101;
    assert_eq!(record_reveal(&mut ctx, [6u8; 32], late), Err(VaultError::AlreadyHasWinner));
    ctx.vault.winner = None;
    assert_eq!(record_reveal(&mut ctx, [6u8; 32], late), Err(VaultError::VaultNotActive));
    ctx.vault.status = 1;
    assert_eq!(record_reveal(&mut ctx, [6u8; 32], late), Err(VaultError::VaultExpired));
    assert_eq!(record_reveal(&mut ctx, [6u8; 32], T0 + 100), Err(VaultError::BadSecret));
    assert_eq!(record_reveal(&mut ctx, [5u8; 32], T0 + 100), Err(VaultError::MathOverflow));
    ctx.player_profile.wins = 0;
    ctx.player_profile.score = u64::MAX - 249;
    let before = ctx;
    assert_eq!(record_reveal(&mut ctx, [5u8; 32], T0 + 100), Err(VaultError::MathOverflow));
    assert_eq!(ctx, before);
    ctx.player_profile.score = u64::MAX - 250;
    assert!(record_reveal(&mut ctx, [5u8; 32], T0 + 100).is_ok());
    assert_eq!(ctx.player_profile.score, u64::MAX);
    assert_eq!(ctx.player_profile.wins, 1);

    let mut hashed = ClaimWin { vault: live_vault(), ..before };
    assert_eq!(claim_win(&mut hashed, vec![5u8; 32], T0), Err(VaultError::BadSecret));
}

#[test]
fn cancelled_vault_takes_no_reveal() {
    let mut ctx = ClaimWin {
        vault: Vault { status: 3, paid_out: true, ..live_vault() },
        vault_key: k(7),
        player_profile: PlayerProfile::default(),
        player: guesser(),
        player_profile_bump: 4,
    };
    assert_eq!(record_reveal(&mut ctx, [5u8; 32], T0), Err(VaultError::VaultNotActive));
}

#[test]
fn claim_prize_refusals_in_order() {
    let mut ctx = ClaimPrize {
        vault: Vault { paid_out: true, winner: Some(k(60)), status: 2, ..live_vault() },
        fee_mint: mint(),
        vault_fee_ata: TokenAccount { mint: mint(), owner: k(7), amount: 10 },
        winner_fee_ata: TokenAccount { mint: k(12), owner: k(13), amount: 0 },
        winner: guesser(),
    };
    assert_eq!(claim_prize(&mut ctx, T0 + 100), Err(VaultError::WrongFeeMint));
    ctx.winner_fee_ata.mint = mint();
    assert_eq!(claim_prize(&mut ctx, T0 + 100), Err(VaultError::WrongFeeOwner));
    ctx.winner_fee_ata.owner = guesser();
    assert_eq!(claim_prize(&mut ctx, T0 + 100), Err(VaultError::VaultNotExpired));
    assert_eq!(claim_prize(&mut ctx, T0 + 101), Err(VaultError::AlreadyPaidOut));
    ctx.vault.paid_out = false;
    assert_eq!(claim_prize(&mut ctx, T0 + 101), Err(VaultError::NotWinner));
    ctx.vault.winner = None;
    assert_eq!(claim_prize(&mut ctx, T0 + 101), Err(VaultError::NotWinner));
    ctx.vault.winner = Some(guesser());
    assert!(claim_prize(&mut ctx, T0 + 101).is_ok());
}

#[test]
fn reclaim_prize_refusals_in_order() {
    let mut ctx = ReclaimPrize {
        vault: Vault { paid_out: true, winner: Some(k(60)), creator: k(61), ..live_vault() },
        fee_mint: mint(),
        vault_fee_ata: TokenAccount { mint: mint(), owner: k(7), amount: 10 },
        creator_fee_ata: TokenAccount { mint: k(12), owner: k(13), amount: 0 },
        creator: owner(),
    };
    assert_eq!(reclaim_prize(&mut ctx, T0 + 100), Err(VaultError::WrongFeeMint));
    ctx.creator_fee_ata.mint = mint();
    assert_eq!(reclaim_prize(&mut ctx, T0 + 100), Err(VaultError::WrongFeeOwner));
    ctx.creator_fee_ata.owner = owner();
    assert_eq!(reclaim_prize(&mut ctx, T0 + 100), Err(VaultError::VaultNotExpired));
    assert_eq!(reclaim_prize(&mut ctx, T0 + 101), Err(VaultError::AlreadyPaidOut));
    ctx.vault.paid_out = false;
    assert_eq!(reclaim_prize(&mut ctx, T0 + 101), Err(VaultError::AlreadyHasWinner));
    ctx.vault.winner = None;
    let before = ctx;
    assert_eq!(reclaim_prize(&mut ctx, T0 + 101), Err(VaultError::NotCreator));
    assert_eq!(ctx, before);
    ctx.vault.creator = owner();
    assert!(reclaim_prize(&mut ctx, T0 + 101).is_ok());
}

#[test]
fn reclaim_prize_splits_the_largest_pool() {
    let mut ctx = ReclaimPrize {
        vault: Vault { prize_amount: u64::MAX, ..live_vault() },
        fee_mint: mint(),
        vault_fee_ata: TokenAccount { mint: mint(), owner: k(7), amount: u64::MAX },
        creator_fee_ata: TokenAccount { mint: mint(), owner: owner(), amount: 0 },
        creator: owner(),
    };
    let plan = reclaim_prize(&mut ctx, T0 + 101).unwrap();
    assert_eq!(plan.len(), 3);
    assert_eq!(plan[0].amount, u64::MAX);
    assert_eq!(plan[1].amount, 9223372036854775807);
    assert_eq!(plan[2].amount, 9223372036854775808);
}

#[test]
fn registry_bootstrap() {
    let mut ctx = InitializeGlobal {
        global_state: GlobalState::default(),
        mega_vault: MegaVault::default(),
        authority: k(100),
        global_state_bump: 251,
        mega_vault_bump: 250,
    };
    assert_eq!(initialize_global(&mut ctx, mint()), Ok(()));
    assert_eq!(
        ctx.global_state,
        GlobalState { authority: k(100), skr_mint: mint(), vault_count: 0, bump: 251 }
    );
    assert_eq!(ctx.mega_vault, MegaVault { bump: 250 });
    assert_eq!(ctx.authority, k(100));
}

#[test]
fn only_the_administrator_points_at_a_vault() {
    let mut ctx = SetMegaChallengeVault {
        global_state: GlobalState { authority: k(100), skr_mint: mint(), vault_count: 5, bump: 1 },
        mega_challenge: MegaChallenge::default(),
        authority: k(101),
        mega_challenge_bump: 249,
    };
    assert_eq!(set_mega_challenge_vault(&mut ctx, k(7)), Err(VaultError::NotAuthorized));
    assert_eq!(ctx.mega_challenge, MegaChallenge::default());
    ctx.authority = k(100);
    assert_eq!(set_mega_challenge_vault(&mut ctx, k(7)), Ok(()));
    assert_eq!(ctx.mega_challenge, MegaChallenge { authority: k(100), vault: k(7), bump: 249 });
    assert_eq!(set_mega_challenge_vault(&mut ctx, k(8)), Ok(()));
    assert_eq!(ctx.mega_challenge.vault, k(8));
    assert_eq!(ctx.global_state.vault_count, 5);
}

#[test]
fn touch_player_keeps_the_counters() {
    let mut ctx = TouchPlayer {
        player_profile: PlayerProfile::default(),
        player: guesser(),
        player_profile_bump: 248,
    };
    assert_eq!(touch_player(&mut ctx, T0), Ok(()));
    assert_eq!(
        ctx.player_profile,
        PlayerProfile { authority: guesser(), last_seen_ts: T0, bump: 248, ..PlayerProfile::default() }
    );
    ctx.player_profile.attempts = 4;
    ctx.player_profile.score = 4;
    assert_eq!(touch_player(&mut ctx, T0 + 9), Ok(()));
    assert_eq!(ctx.player_profile.attempts, 4);
    assert_eq!(ctx.player_profile.score, 4);
    assert_eq!(ctx.player_profile.last_seen_ts, T0 + 9);
}

#[test]
fn score_adds_up() {
    assert_eq!(SCORE_PER_ATTEMPT, 1);
    assert_eq!(SCORE_PER_VAULT_CREATED, 50);
    assert_eq!(SCORE_PER_WIN, 250);
    let mut profile = PlayerProfile::default();
    profile.record_attempt(guesser(), 1, 5).unwrap();
    profile.record_attempt(guesser(), 2, 5).unwrap();
    profile.record_vault_created(guesser(), 3, 5).unwrap();
    profile.record_win(guesser(), 4, 5).unwrap();
    profile.touch(guesser(), 5, 6);
    assert_eq!(
        profile,
        PlayerProfile {
            authority: guesser(),
            attempts: 2,
            wins: 1,
            vaults_created: 1,
            score: 302,
            last_seen_ts: 5,
            bump: 6,
        }
    );
    let mut full = PlayerProfile { score: u64::MAX, ..profile };
    assert_eq!(full.record_attempt(guesser(), 6, 5), Err(VaultError::MathOverflow));
    assert_eq!(full.record_vault_created(guesser(), 6, 5), Err(VaultError::MathOverflow));
    assert_eq!(full.record_win(guesser(), 6, 5), Err(VaultError::MathOverflow));
    assert_eq!(full, PlayerProfile { score: u64::MAX, ..profile });
}

#[test]
fn status_bytes() {
    assert_eq!(VaultStatus::Active.as_u8(), 1);
    assert_eq!(VaultStatus::Settled.as_u8(), 2);
    assert_eq!(VaultStatus::Cancelled.as_u8(), 3);
}

#[test]
fn fresh_records_are_empty() {
    assert_eq!(Pubkey::default(), Pubkey { bytes: [0u8; 32] });
    assert_eq!(Vault::default().status, 0);
    assert_eq!(Vault::default().winner, None);
    assert_eq!(Vault::default().secret_hash, [0u8; 32]);
    assert_eq!(VaultReward::default().mint, Pubkey::default());
    assert!(!VaultReward::default().claimed);
    assert_eq!(PlayerProfile::default().score, 0);
    assert_eq!(GlobalState::default().vault_count, 0);
}

#[test]
fn keys_compare_by_their_bytes() {
    let mut other = [3u8; 32];
    assert!(bytes32_eq(&[3u8; 32], &other));
    assert!(k(3) == Pubkey { bytes: other });
    other[31] = 4;
    assert!(!bytes32_eq(&[3u8; 32], &other));
    assert!(k(3) != Pubkey { bytes: other });
    other[31] = 3;
    other[0] = 0;
    assert!(!bytes32_eq(&[3u8; 32], &other));
    assert!(k(3) != Pubkey { bytes: other });
}
