use vstd::prelude::*;

verus! {

/// Every way an operation can be refused. A failing operation reports one of
/// these and leaves every record untouched.
///
/// `SideMismatch` is declared but never raised: a bet's side is fixed when
/// the bet is placed and can never be changed afterwards.
#[derive(Clone, Copy, PartialEq, Eq, Structural, Debug)]
pub enum CustomError {
    /// The deadline of a new match is not strictly in the future.
    InvalidDeadline,
    /// The stake of a new match is zero.
    InvalidStake,
    /// The match is not in a lifecycle status that allows the operation.
    InvalidStatus,
    /// The caller is neither configured principal of the match.
    NotAPlayer,
    /// The calling principal has already deposited its stake.
    AlreadyDeposited,
    /// The bet amount is zero.
    InvalidAmount,
    /// The deadline has been reached, so no further bets are accepted.
    BetsClosed,
    /// Declared but unreachable: a bet's side is fixed at placement.
    SideMismatch,
    /// An addition or multiplication overflowed, a computed payout did not
    /// fit the stored width, or the vault could not cover a payout.
    MathOverflow,
    /// The caller is not the match's configured arbiter.
    NotArbiter,
    /// The deadline has not passed yet, so no winner may be declared.
    TooEarly,
    /// A winner has already been declared for this match.
    AlreadyResolved,
    /// The match has no winner yet.
    NoWinner,
    /// The caller is not the principal on the winning side.
    NotWinnerPlayer,
    /// The combined stakes have already been withdrawn.
    StakesAlreadyWithdrawn,
    /// The caller does not own the bet record.
    NotBettor,
    /// The bet backs the losing side.
    WrongSide,
    /// The bet's payout has already been claimed.
    AlreadyClaimed,
    /// No bets back the winning side, so a share would divide by zero.
    NoBetsOnWinnerSide,
}

} // verus!
