//! A verified ledger and settlement state machine for a two-party wagering
//! session.
//!
//! Two participants each deposit a stake into a shared pot, alternate taking
//! moves (each charged a fee that is added to the pot), and eventually the pot
//! is paid out in full: to a declared winner, back to the creator before the
//! session starts, or split between the players in proportion to what each
//! put in. The contracts here pin down the bookkeeping: the pot always equals
//! the recorded contributions, the status only moves forward, turns alternate
//! strictly, and every settlement pays out exactly the pot.
//!
//! Identity verification, funds custody and the clock are external
//! collaborators: callers hand in authenticated player identities, wallet
//! balances and the current slot as plain values.

pub mod errors;
pub mod laws;
pub mod ledger;
pub mod ops;
pub mod settlement;
pub mod state;
pub mod timeout;

pub use errors::ErrorCode;
pub use ops::{
    cancel_before_join, finish_game, force_refund, init_game, join_game, make_move, manual_refund,
    CancelBeforeJoin, FinishGame, ForceRefund, InitGame, JoinGame, MakeMove,
};
pub use state::{GameState, GameStatus, PlayerId, Wallet};
pub use timeout::FORCE_REFUND_TIMEOUT_SLOTS;
