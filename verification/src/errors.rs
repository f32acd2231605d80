//! The error kinds every operation can abort with. Each failure is terminal
//! to the enclosing atomic step: no partial state is ever committed.
use vstd::prelude::*;

verus! {

/// Why a lottery operation was rejected. Every check is performed eagerly at
/// the start of its operation and surfaced verbatim to the caller.
#[derive(Clone, Copy, Debug, PartialEq, Eq, Structural)]
pub enum LotteryError {
    /// A ticket purchase was attempted after the sale window closed.
    LotteryExpired,
    /// A ticket purchase was attempted while the lottery is not active.
    EntryDisabled,
    /// The caller is not the identity the operation is gated on.
    AccessDenied,
    /// A phase-gated operation was invoked too early or in the wrong phase.
    LotteryStillActive,
    /// A draw was requested with no entries sold.
    TicketsNotSold,
    /// The prize was claimed before a winner was set.
    WinnerNotPicked,
    /// A draw was requested after the winner was already set.
    WinnerAlreadyPicked,
    /// Draw resolution was attempted before the oracle fulfilled the request.
    RandomnessNotFulfilled,
    /// The claimed winning entry does not match the derived winning index.
    InvalidWinningTicket,
}

impl LotteryError {
    /// A human-readable description of the failure.
    pub fn message(&self) -> (r: &'static str) {
        match self {
            LotteryError::LotteryExpired => "ticket bought after the lottery has ended",
            LotteryError::EntryDisabled => "entries are not open on this lottery",
            LotteryError::AccessDenied => "caller is not authorized for this operation",
            LotteryError::LotteryStillActive => "lottery is still active",
            LotteryError::TicketsNotSold => "no tickets sold to pick the winner",
            LotteryError::WinnerNotPicked => "winner has not been picked",
            LotteryError::WinnerAlreadyPicked => "winner has already been picked",
            LotteryError::RandomnessNotFulfilled => "randomness has not been fulfilled",
            LotteryError::InvalidWinningTicket => "winning ticket mismatch",
        }
    }
}

} // verus!
