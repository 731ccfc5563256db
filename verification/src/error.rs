//! The named conditions under which an operation is refused.

use vstd::prelude::*;

verus! {

/// Why an operation was refused. A refused operation changes nothing.
#[derive(Clone, Copy, Debug, PartialEq, Eq, Structural)]
pub enum VaultError {
    /// The expiry of a new vault is not in the future.
    BadEndTs,
    /// The secret's digit length is not one of the supported classes.
    BadPinLen,
    /// A vault was opened without naming the asset its fees are paid in.
    PrizeRequiresMint,
    /// A non-zero prize is below the minimum that may be locked.
    PrizeTooSmall,
    /// The attempt fee is not acceptable.
    BadFee,
    /// A reward deposit of zero, or a claim on an empty reward slot.
    BadRewardAmount,
    /// A fee, score or counter would not fit in 64 bits.
    MathOverflow,
    /// The caller is not the registry's administrator.
    NotAuthorized,
    /// The vault has left the active state.
    VaultNotActive,
    /// The vault's expiry has passed.
    VaultExpired,
    /// The vault's expiry has not passed yet.
    VaultNotExpired,
    /// The vault's escrow was already distributed.
    AlreadyPaidOut,
    /// The caller is not the recorded winner.
    NotWinner,
    /// The caller is not the vault's creator.
    NotCreator,
    /// The fee asset is not the one the registry accepts.
    UnsupportedFeeMint,
    /// The vault takes its fees in the other currency.
    WrongFeeCurrency,
    /// The fee asset does not match the one in use.
    WrongFeeMint,
    /// The fee account does not belong to the caller.
    WrongFeeOwner,
    /// The vault already records a winner.
    AlreadyHasWinner,
    /// The revealed secret does not hash to the commitment.
    BadSecret,
    /// The reward slot was already paid out.
    RewardAlreadyClaimed,
    /// The reward slot belongs to another vault.
    RewardWrongVault,
    /// The reward slot holds another asset.
    RewardWrongMint,
    /// The reward slot was filled through another transfer protocol.
    RewardWrongTokenProgram,
}

} // verus!
