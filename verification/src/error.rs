use vstd::prelude::*;

verus! {

/// The failure kinds surfaced by staking operations.
///
/// Every precondition check and every checked arithmetic step reports its
/// specific kind to the caller, and no operation commits partial state before
/// failing: either an operation's whole effect is observable, or none of it.
#[derive(Clone, Copy, Debug, PartialEq, Eq, Structural)]
pub enum StakingError {
    /// Finalization was attempted before the cooldown is over.
    CooldownIsNotOver,
    /// The reward-funding pool had insufficient funds to reserve a reward.
    CouldNotReserveReward,
    /// The reward-funding pool had insufficient reserved funds to release.
    CouldNotReleaseReward,
    /// Withdrawal was attempted while the gem is still locked.
    GemStillLocked,
    /// A stake was attempted on a receipt that is already staked.
    GemStillStaked,
    /// An operation was attempted on a gem that is no longer staked.
    GemNotStaked,
    /// The mint or creator in question has not been whitelisted.
    AddressNotWhitelisted,
    /// The whitelist record has the wrong type for the requested use.
    InvalidWhitelistType,
    /// Unstaking was attempted while objects are still attached.
    GemStillHasObjects,
    /// The object to remove is not attached to the receipt.
    ObjectNotFound,
    /// Attaching one more object would exceed the capacity of the receipt.
    MaxObjectsExceeded,
    /// A checked addition, subtraction or multiplication left `u64` range.
    ArithmeticError,
}

} // verus!
