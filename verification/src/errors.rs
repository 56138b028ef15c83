use vstd::prelude::*;

verus! {

/// Why an operation on a session was rejected. Every error leaves the session
/// and the wallets handed to the operation exactly as they were.
#[derive(Clone, Copy, Debug, PartialEq, Eq, Structural)]
pub enum ErrorCode {
    /// The operation needs a session that is still waiting for its second
    /// player, but the session has moved on.
    GameNotWaitingForPlayer2,
    /// The wallet presented for player 2 does not belong to the player 2
    /// recorded in the session.
    InvalidPlayer2,
    /// The operation needs an active session, but the session is not active.
    GameNotActive,
    /// A move was attempted by a player whose turn it is not.
    NotPlayersTurn,
    /// The stored turn marker is neither 1 nor 2. Unreachable from any
    /// well-formed session; checked defensively.
    InvalidCurrentTurn,
    /// A checked addition or subtraction would have wrapped.
    MathOverflow,
    /// The declared winner is neither of the session's players.
    InvalidWinner,
    /// The wallet presented for player 1 does not belong to the player 1
    /// recorded in the session.
    InvalidPlayer1,
    /// The acting player's balance cannot cover the required amount.
    NotEnoughBalanceForMove,
    /// Too little time has passed since the last activity for a forced
    /// refund.
    TimeoutNotReached,
    /// The recorded contributions do not add up to the pot. Unreachable from
    /// any well-formed session; checked defensively before a refund pays out.
    InconsistentPot,
}

} // verus!
