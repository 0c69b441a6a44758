use vstd::prelude::*;

verus! {

/// Every way a call into the engine can be rejected. A rejected call leaves
/// the engine state exactly as it was.
#[derive(Clone, Copy, Debug, PartialEq, Eq, Structural)]
pub enum SaleError {
    /// The caller lacks the administrator role required by the operation.
    Unauthorized,
    /// The operation was attempted outside its required phase window.
    WrongPhase,
    /// The participant is unknown or not currently whitelisted.
    NotWhitelisted,
    /// The deposit would exceed the participant's configured cap.
    LimitExceeded,
    /// A nonzero cap may not be set below the participant's current deposit.
    LimitBelowCurrentDeposit,
    /// The resulting deposit (or a nonzero cap) would fall under the
    /// configured minimum-deposit floor.
    BelowMinDeposit,
    /// A withdrawal asked for more than the available balance.
    InsufficientBalance,
    /// A one-shot redemption was attempted a second time.
    AlreadyRedeemed,
    /// Owner redemption with no launched tokens ever deposited.
    NothingToRedeem,
    /// A window edit that would make the current phase jump over a boundary.
    InvalidTimestampChange,
    /// A window duration outside its allowed bounds, or a shrink of the
    /// currently active window.
    InvalidDuration,
    /// An amount of zero where a positive amount is required.
    InvalidAmount,
    /// The operation would push a balance past the machine's integer range.
    Overflow,
}

} // verus!
