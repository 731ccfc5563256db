//! What holds across operations: the fee ladder, the exactly-once latches,
//! the final states, and the conservation of what is moved.

use crate::accounts::{ClaimPrize, ClaimReward, ClaimWin, CreateVault, CreateVaultArgs, ReclaimPrize, ReclaimReward, AddReward};
use crate::create::prize_escrow;
use crate::error::VaultError;
use crate::fees::{ladder, ladder_step, lemma_ladder_step_grows, spec_next_fee, winner_share};
use crate::guess::guess_transfers;
use crate::ledger::{moved_in, moved_out, transfer_if_any, Slot, Transfer};
use crate::state::{Vault, VaultReward, VaultStatus};
use vstd::prelude::*;

verus! {

/// Whether `run` is a vault's history under accepted attempts: each state is
/// the one before it, charged one attempt.
pub open spec fn accepted_attempts(run: Seq<Vault>) -> bool {
    forall|i: int|
        0 <= i < run.len() - 1 ==> (#[trigger] run[i].charged()) == Ok::<Vault, VaultError>(
            run[i + 1],
        )
}

/// One accepted attempt moves the fee exactly one step up the ladder and
/// counts one attempt.
pub proof fn lemma_attempt_steps_the_ladder(vault: Vault)
    requires
        vault.charged() is Ok,
    ensures
        vault.charged()->Ok_0.current_fee_amount == ladder_step(vault.current_fee_amount as nat),
        spec_next_fee(vault.current_fee_amount) == Ok::<u64, VaultError>(
            vault.charged()->Ok_0.current_fee_amount,
        ),
        vault.charged()->Ok_0.current_fee_amount >= vault.current_fee_amount,
        vault.charged()->Ok_0.attempt_count == vault.attempt_count + 1,
{
    lemma_ladder_step_grows(vault.current_fee_amount as nat);
}

/// After `n` accepted attempts the fee is the starting point moved `n` steps
/// up the ladder, the vault has counted `n` more attempts, and the fee has
/// never gone down on the way.
pub proof fn lemma_fee_follows_ladder(run: Seq<Vault>, n: int)
    requires
        accepted_attempts(run),
        0 <= n < run.len(),
    ensures
        run[n].current_fee_amount == ladder(run[0].current_fee_amount as nat, n as nat),
        run[n].attempt_count == run[0].attempt_count + n,
        forall|i: int| 0 <= i <= n ==> (#[trigger] run[i]).current_fee_amount <= run[n].current_fee_amount,
    decreases n,
{
    if n > 0 {
        lemma_fee_follows_ladder(run, n - 1);
        assert(run[n - 1].charged() == Ok::<Vault, VaultError>(run[n]));
        lemma_attempt_steps_the_ladder(run[n - 1]);
        assert forall|i: int| 0 <= i <= n implies (#[trigger] run[i]).current_fee_amount
            <= run[n].current_fee_amount by {
            if i < n {
                assert(run[i].current_fee_amount <= run[n - 1].current_fee_amount);
            }
        }
    }
}

/// A free vault stays free: however many attempts it accepts, each one moves
/// nothing, the fee stays zero, nothing is collected, and only the attempt
/// counter grows.
pub proof fn lemma_free_vault_stays_free(run: Seq<Vault>, n: int)
    requires
        accepted_attempts(run),
        0 <= n < run.len(),
        run[0].current_fee_amount == 0,
    ensures
        run[0].attempt_count + n <= u64::MAX,
        run[n] == (Vault { attempt_count: (run[0].attempt_count + n) as u64, ..run[0] }),
        guess_transfers(run[n].current_fee_amount) == Seq::<Transfer>::empty(),
    decreases n,
{
    if n > 0 {
        lemma_free_vault_stays_free(run, n - 1);
        assert(run[n - 1].charged() == Ok::<Vault, VaultError>(run[n]));
    }
}

/// A free vault refuses an attempt for one reason only besides its state:
/// its attempt counter is full.
pub proof fn lemma_free_vault_takes_attempts(vault: Vault)
    requires
        vault.current_fee_amount == 0,
    ensures
        vault.charged() is Ok <==> vault.attempt_count < u64::MAX,
{
}

/// A vault opened with a base fee of zero is free, and one opened without a
/// prize locks nothing.
pub proof fn lemma_zero_base_fee_opens_free_vault(ctx: CreateVault, args: CreateVaultArgs, now: i64)
    requires
        ctx.refusal(args, now) is None,
    ensures
        args.base_fee_amount == 0 ==> ctx.new_vault(args, now).current_fee_amount == 0,
        args.prize_amount == 0 ==> prize_escrow(args.prize_amount) == Seq::<Transfer>::empty(),
        ctx.new_vault(args, now).wf(),
{
}

/// Nothing changes into itself illegally: a vault may always stay as it is.
pub proof fn lemma_may_become_reflexive(vault: Vault)
    ensures
        vault.may_become(vault),
{
}

/// Legal changes compose: what a vault may become after what it may become,
/// it may become.
pub proof fn lemma_may_become_transitive(first: Vault, second: Vault, third: Vault)
    requires
        first.may_become(second),
        second.may_become(third),
    ensures
        first.may_become(third),
{
}

/// `Settled` and `Cancelled` are final: a vault that has left `Active` keeps
/// its status, its winner and its paid-out flag through every legal change.
pub proof fn lemma_final_states_stay(vault: Vault, next: Vault)
    requires
        vault.may_become(next),
        vault.status == VaultStatus::Settled.code() || vault.status
            == VaultStatus::Cancelled.code(),
    ensures
        next.status == vault.status,
        vault.paid_out ==> next.paid_out,
        vault.winner is Some ==> next.winner == vault.winner,
{
}

/// A vault whose escrow was distributed refuses every claim and every
/// reclaim; a request that is in order otherwise, made after the expiry with
/// an account that fits, is refused with `AlreadyPaidOut`.
pub proof fn lemma_paid_out_vault_refuses(claim: ClaimPrize, reclaim: ReclaimPrize, now: i64)
    requires
        claim.vault.paid_out,
        reclaim.vault.paid_out,
    ensures
        claim.refusal(now) is Some,
        reclaim.refusal(now) is Some,
        claim.winner_fee_ata.fee_mismatch(claim.fee_mint, claim.winner) is None
            && claim.vault.expired_at(now) ==> claim.refusal(now) == Some(
            VaultError::AlreadyPaidOut,
        ),
        reclaim.creator_fee_ata.fee_mismatch(reclaim.fee_mint, reclaim.creator) is None
            && reclaim.vault.expired_at(now) ==> reclaim.refusal(now) == Some(
            VaultError::AlreadyPaidOut,
        ),
{
}

/// After an accepted claim of the prize, at most that one distribution ever
/// happens: whatever legal changes the vault undergoes afterwards, a later
/// claim and a later reclaim are both refused, and with `AlreadyPaidOut` when
/// the clock has not gone back and the account to be paid fits.
pub proof fn lemma_claim_settles_once(
    first: ClaimPrize,
    at: i64,
    later_claim: ClaimPrize,
    later_reclaim: ReclaimPrize,
    then: i64,
)
    requires
        first.refusal(at) is None,
        first.paid().vault.may_become(later_claim.vault),
        first.paid().vault.may_become(later_reclaim.vault),
    ensures
        later_claim.refusal(then) is Some,
        later_reclaim.refusal(then) is Some,
        then >= at && later_claim.winner_fee_ata.fee_mismatch(
            later_claim.fee_mint,
            later_claim.winner,
        ) is None ==> later_claim.refusal(then) == Some(VaultError::AlreadyPaidOut),
        then >= at && later_reclaim.creator_fee_ata.fee_mismatch(
            later_reclaim.fee_mint,
            later_reclaim.creator,
        ) is None ==> later_reclaim.refusal(then) == Some(VaultError::AlreadyPaidOut),
{
    lemma_paid_out_vault_refuses(later_claim, later_reclaim, then);
}

/// After an accepted reclaim of the prize, at most that one distribution ever
/// happens: whatever legal changes the vault undergoes afterwards, a later
/// claim and a later reclaim are both refused, and with `AlreadyPaidOut` when
/// the clock has not gone back and the account to be paid fits.
pub proof fn lemma_reclaim_settles_once(
    first: ReclaimPrize,
    at: i64,
    later_claim: ClaimPrize,
    later_reclaim: ReclaimPrize,
    then: i64,
)
    requires
        first.refusal(at) is None,
        first.cancelled().vault.may_become(later_claim.vault),
        first.cancelled().vault.may_become(later_reclaim.vault),
    ensures
        later_claim.refusal(then) is Some,
        later_reclaim.refusal(then) is Some,
        then >= at && later_claim.winner_fee_ata.fee_mismatch(
            later_claim.fee_mint,
            later_claim.winner,
        ) is None ==> later_claim.refusal(then) == Some(VaultError::AlreadyPaidOut),
        then >= at && later_reclaim.creator_fee_ata.fee_mismatch(
            later_reclaim.fee_mint,
            later_reclaim.creator,
        ) is None ==> later_reclaim.refusal(then) == Some(VaultError::AlreadyPaidOut),
{
    lemma_paid_out_vault_refuses(later_claim, later_reclaim, then);
}

/// A winner is recorded at most once: after an accepted reveal, whatever
/// legal changes the vault undergoes, it keeps that winner, and every later
/// reveal, correct or not, is refused with `AlreadyHasWinner`.
pub proof fn lemma_winner_recorded_once(
    first: ClaimWin,
    digest: Seq<u8>,
    at: i64,
    later: ClaimWin,
    later_digest: Seq<u8>,
    then: i64,
)
    requires
        first.refusal(digest, at) is None,
        first.won(at).vault.may_become(later.vault),
    ensures
        later.vault.winner == Some(first.player),
        later.refusal(later_digest, then) == Some(VaultError::AlreadyHasWinner),
{
}

/// Only a reveal of the committed digest is accepted, and an accepted reveal
/// moves the vault from `Active` to `Settled`.
pub proof fn lemma_reveal_needs_the_secret(ctx: ClaimWin, digest: Seq<u8>, now: i64)
    requires
        ctx.refusal(digest, now) is None,
    ensures
        digest == ctx.vault.secret_hash@,
        ctx.vault.is_active(),
        ctx.vault.winner is None,
        now <= ctx.vault.end_ts,
        ctx.won(now).vault.status == VaultStatus::Settled.code(),
        ctx.won(now).vault.winner == Some(ctx.player),
{
}

/// Adding one movement, if there is anything to move, adds its amount to
/// what leaves its source and to what reaches its target, and to no other
/// slot.
pub proof fn lemma_moved_with(plan: Seq<Transfer>, from: Slot, to: Slot, amount: u64, slot: Slot)
    ensures
        moved_out(plan + transfer_if_any(from, to, amount), slot) == moved_out(plan, slot) + if from
            == slot {
            amount as int
        } else {
            0
        },
        moved_in(plan + transfer_if_any(from, to, amount), slot) == moved_in(plan, slot) + if to
            == slot {
            amount as int
        } else {
            0
        },
{
    let step = transfer_if_any(from, to, amount);
    if amount > 0 {
        assert((plan + step).drop_last() == plan);
        assert((plan + step).last() == (Transfer { from, to, amount }));
    } else {
        assert(plan + step == plan);
    }
}

/// An attempt takes exactly the fee out of the player's account, and all of
/// it arrives: the winner's part in the vault's pool, the rest in the
/// jackpot.
pub proof fn lemma_guess_moves_the_fee(fee: u64)
    ensures
        moved_out(guess_transfers(fee), Slot::Player) == fee,
        moved_in(guess_transfers(fee), Slot::VaultPool) == winner_share(fee as nat),
        moved_in(guess_transfers(fee), Slot::Jackpot) == fee - winner_share(fee as nat),
        moved_in(guess_transfers(fee), Slot::VaultPool) + moved_in(
            guess_transfers(fee),
            Slot::Jackpot,
        ) == fee,
{
    let none = Seq::<Transfer>::empty();
    reveal_with_fuel(moved_out, 3);
    reveal_with_fuel(moved_in, 3);
    if fee > 0 {
        let to_pool = winner_share(fee as nat) as u64;
        let to_jackpot = (fee - winner_share(fee as nat)) as u64;
        let first = Transfer { from: Slot::Player, to: Slot::Jackpot, amount: to_jackpot };
        let second = Transfer { from: Slot::Player, to: Slot::VaultPool, amount: to_pool };
        let plan = guess_transfers(fee);
        assert(plan.drop_last() == seq![first]);
        assert(plan.last() == second);
        assert(seq![first].drop_last() == none);
        assert(seq![first].last() == first);
    }
}

/// The winner's payout is the whole escrow and no more: the locked prize
/// leaves the prize custody, what the pool custody holds leaves the pool, and
/// the winner receives their sum.
pub proof fn lemma_payout_is_the_escrow(ctx: ClaimPrize)
    ensures
        moved_out(ctx.payout(), Slot::VaultPrize) == ctx.vault.prize_amount,
        moved_out(ctx.payout(), Slot::VaultPool) == ctx.vault_fee_ata.amount,
        moved_in(ctx.payout(), Slot::Winner) == ctx.vault.prize_amount + ctx.vault_fee_ata.amount,
        moved_in(ctx.payout(), Slot::Jackpot) == 0,
        moved_in(ctx.payout(), Slot::Creator) == 0,
{
    let none = Seq::<Transfer>::empty();
    let prize = transfer_if_any(Slot::VaultPrize, Slot::Winner, ctx.vault.prize_amount);
    assert(none + prize == prize);
    lemma_moved_with(none, Slot::VaultPrize, Slot::Winner, ctx.vault.prize_amount, Slot::VaultPrize);
    lemma_moved_with(none, Slot::VaultPrize, Slot::Winner, ctx.vault.prize_amount, Slot::VaultPool);
    lemma_moved_with(none, Slot::VaultPrize, Slot::Winner, ctx.vault.prize_amount, Slot::Winner);
    lemma_moved_with(none, Slot::VaultPrize, Slot::Winner, ctx.vault.prize_amount, Slot::Jackpot);
    lemma_moved_with(none, Slot::VaultPrize, Slot::Winner, ctx.vault.prize_amount, Slot::Creator);
    lemma_moved_with(prize, Slot::VaultPool, Slot::Winner, ctx.vault_fee_ata.amount, Slot::VaultPrize);
    lemma_moved_with(prize, Slot::VaultPool, Slot::Winner, ctx.vault_fee_ata.amount, Slot::VaultPool);
    lemma_moved_with(prize, Slot::VaultPool, Slot::Winner, ctx.vault_fee_ata.amount, Slot::Winner);
    lemma_moved_with(prize, Slot::VaultPool, Slot::Winner, ctx.vault_fee_ata.amount, Slot::Jackpot);
    lemma_moved_with(prize, Slot::VaultPool, Slot::Winner, ctx.vault_fee_ata.amount, Slot::Creator);
}

/// The creator's refund is the whole escrow and no more: the locked prize
/// returns in full, the pool is emptied, the creator receives half of it
/// rounded down and the jackpot the rest, which is the same or one more.
pub proof fn lemma_refund_is_the_escrow(ctx: ReclaimPrize)
    ensures
        moved_out(ctx.refund(), Slot::VaultPrize) == ctx.vault.prize_amount,
        moved_out(ctx.refund(), Slot::VaultPool) == ctx.vault_fee_ata.amount,
        moved_in(ctx.refund(), Slot::Creator) == ctx.vault.prize_amount + ctx.creator_cut(),
        moved_in(ctx.refund(), Slot::Jackpot) == ctx.mega_cut(),
        moved_in(ctx.refund(), Slot::Winner) == 0,
        ctx.creator_cut() + ctx.mega_cut() == ctx.vault_fee_ata.amount,
        ctx.creator_cut() <= ctx.mega_cut() <= ctx.creator_cut() + 1,
{
    let none = Seq::<Transfer>::empty();
    let prize = transfer_if_any(Slot::VaultPrize, Slot::Creator, ctx.vault.prize_amount);
    let halves = prize + transfer_if_any(Slot::VaultPool, Slot::Creator, ctx.creator_cut());
    assert(none + prize == prize);
    lemma_moved_with(none, Slot::VaultPrize, Slot::Creator, ctx.vault.prize_amount, Slot::VaultPrize);
    lemma_moved_with(none, Slot::VaultPrize, Slot::Creator, ctx.vault.prize_amount, Slot::VaultPool);
    lemma_moved_with(none, Slot::VaultPrize, Slot::Creator, ctx.vault.prize_amount, Slot::Creator);
    lemma_moved_with(none, Slot::VaultPrize, Slot::Creator, ctx.vault.prize_amount, Slot::Jackpot);
    lemma_moved_with(none, Slot::VaultPrize, Slot::Creator, ctx.vault.prize_amount, Slot::Winner);
    lemma_moved_with(prize, Slot::VaultPool, Slot::Creator, ctx.creator_cut(), Slot::VaultPrize);
    lemma_moved_with(prize, Slot::VaultPool, Slot::Creator, ctx.creator_cut(), Slot::VaultPool);
    lemma_moved_with(prize, Slot::VaultPool, Slot::Creator, ctx.creator_cut(), Slot::Creator);
    lemma_moved_with(prize, Slot::VaultPool, Slot::Creator, ctx.creator_cut(), Slot::Jackpot);
    lemma_moved_with(prize, Slot::VaultPool, Slot::Creator, ctx.creator_cut(), Slot::Winner);
    lemma_moved_with(halves, Slot::VaultPool, Slot::Jackpot, ctx.mega_cut(), Slot::VaultPrize);
    lemma_moved_with(halves, Slot::VaultPool, Slot::Jackpot, ctx.mega_cut(), Slot::VaultPool);
    lemma_moved_with(halves, Slot::VaultPool, Slot::Jackpot, ctx.mega_cut(), Slot::Creator);
    lemma_moved_with(halves, Slot::VaultPool, Slot::Jackpot, ctx.mega_cut(), Slot::Jackpot);
    lemma_moved_with(halves, Slot::VaultPool, Slot::Jackpot, ctx.mega_cut(), Slot::Winner);
}

/// Deposits into one reward slot add up: after two accepted deposits the
/// slot holds the sum of both on top of what it held.
pub proof fn lemma_deposits_add_up(first: AddReward, amount: u64, second: AddReward, more: u64)
    requires
        first.refusal(amount) is None,
        second.reward == first.filled(amount),
        second.refusal(more) is None,
        !second.reward.is_unset(),
    ensures
        second.filled(more).amount == first.filled(amount).amount + more,
        first.reward.is_unset() ==> second.filled(more).amount == amount + more,
        !second.filled(more).claimed,
{
}

/// A reward slot is paid out at most once: after an accepted claim or
/// reclaim, whatever legal changes the slot undergoes, every later claim,
/// reclaim and deposit on it is refused; a request that is in order otherwise
/// is refused with `RewardAlreadyClaimed`.
pub proof fn lemma_reward_paid_once(
    paid: VaultReward,
    later_claim: ClaimReward,
    later_reclaim: ReclaimReward,
    later_deposit: AddReward,
    amount: u64,
    then: i64,
)
    requires
        !paid.is_unset(),
        paid.emptied().may_become(later_claim.reward),
        paid.emptied().may_become(later_reclaim.reward),
        paid.emptied().may_become(later_deposit.reward),
    ensures
        later_claim.refusal(then) is Some,
        later_reclaim.refusal(then) is Some,
        later_deposit.refusal(amount) is Some,
        later_claim.reward.mismatch(
            later_claim.vault_key,
            later_claim.reward_mint,
            later_claim.token_program,
        ) is None && later_claim.vault.expired_at(then) && later_claim.vault.winner == Some(
            later_claim.winner,
        ) ==> later_claim.refusal(then) == Some(VaultError::RewardAlreadyClaimed),
        later_reclaim.reward.mismatch(
            later_reclaim.vault_key,
            later_reclaim.reward_mint,
            later_reclaim.token_program,
        ) is None && later_reclaim.vault.expired_at(then) && later_reclaim.vault.winner is None
            && later_reclaim.vault.creator == later_reclaim.creator ==> later_reclaim.refusal(then)
            == Some(VaultError::RewardAlreadyClaimed),
{
}

} // verus!
