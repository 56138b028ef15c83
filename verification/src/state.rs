use vstd::prelude::*;

verus! {

/// An authenticated participant identity. Identities are opaque to the
/// session: it only ever compares them for equality.
#[derive(Clone, Copy, Debug, PartialEq, Eq, Structural)]
pub struct PlayerId(pub u64);

/// A player's external balance, from which stakes and move fees are taken
/// and to which settlements pay out. The custody primitive behind it is an
/// external collaborator; the session sees it as a plain balance.
#[derive(Clone, Copy, Debug, PartialEq, Eq, Structural)]
pub struct Wallet {
    /// The identity that owns this balance.
    pub owner: PlayerId,
    /// The balance itself.
    pub lamports: u64,
}

/// The lifecycle of a session. It only ever moves forward:
/// `WaitingForPlayer2` to `Active` to `Finished`, and `Finished` is terminal.
#[derive(Clone, Copy, Debug, PartialEq, Eq, Structural)]
pub enum GameStatus {
    WaitingForPlayer2,
    Active,
    Finished,
}

/// One two-party wagering session: its participants, its bookkeeping, and
/// its position in the lifecycle.
///
/// All reachable sessions satisfy [`GameState::wf`]: the pot equals the
/// recorded contributions until the session finishes, the pot is zero once
/// it has finished, and the turn marker tracks the move count.
#[derive(Clone, Debug, PartialEq, Eq)]
pub struct GameState {
    /// The creator, who funds the first stake at creation.
    pub player1: PlayerId,
    /// The opponent, fixed at creation; funds its stake on join.
    pub player2: PlayerId,
    /// Opaque session identifier.
    pub game_id: u64,
    /// Required initial deposit per player, fixed at creation.
    pub stake_lamports: u64,
    /// Fixed charge per move, fixed at creation.
    pub move_fee_lamports: u64,
    /// Total funds currently in custody of the session.
    pub pot_lamports: u64,
    /// Cumulative stake contributed by player 1.
    pub player1_deposit: u64,
    /// Cumulative stake contributed by player 2.
    pub player2_deposit: u64,
    /// Cumulative move fees charged to player 1.
    pub player1_fees_paid: u64,
    /// Cumulative move fees charged to player 2.
    pub player2_fees_paid: u64,
    /// Clock reading of the most recent creation, join or move.
    pub last_activity_slot: u64,
    /// Count of completed moves.
    pub move_index: u64,
    /// Opaque board payload, meaningful only to the external rules engine.
    pub board_state: [u8; 64],
    /// Whose move is next: 1 or 2.
    pub current_turn: u8,
    /// Where the session stands in its lifecycle.
    pub status: GameStatus,
    /// The declared winner, set only when the session finished through the
    /// winner-take-all path; `None` on every refund path.
    pub winner: Option<PlayerId>,
}

/// Rank of a status in the one-way lifecycle; operations only ever increase
/// it.
pub open spec fn status_rank(s: GameStatus) -> int {
    match s {
        GameStatus::WaitingForPlayer2 => 0,
        GameStatus::Active => 1,
        GameStatus::Finished => 2,
    }
}

/// Whose move is next after `n` completed moves: player 1 after an even
/// number, player 2 after an odd one.
pub open spec fn turn_after(n: u64) -> u8 {
    if n % 2 == 0 {
        1u8
    } else {
        2u8
    }
}

impl GameState {
    /// The identity whose move is next, read off the turn marker.
    pub open spec fn turn_player(self) -> PlayerId
        recommends
            self.current_turn == 1 || self.current_turn == 2,
    {
        if self.current_turn == 1 {
            self.player1
        } else {
            self.player2
        }
    }

    /// Everything player 1 has put into the pot: deposit plus move fees.
    pub open spec fn player1_share(self) -> int {
        self.player1_deposit + self.player1_fees_paid
    }

    /// Everything player 2 has put into the pot: deposit plus move fees.
    pub open spec fn player2_share(self) -> int {
        self.player2_deposit + self.player2_fees_paid
    }

    /// Sum of all recorded contributions to the pot.
    pub open spec fn contributions(self) -> int {
        self.player1_share() + self.player2_share()
    }

    /// Well-formedness: what holds of every reachable session. Constructors
    /// establish it and every operation preserves it.
    pub open spec fn wf(self) -> bool {
        &&& self.status !is Finished ==> self.pot_lamports == self.contributions()
        &&& self.status !is Finished ==> self.current_turn == turn_after(self.move_index)
        &&& self.status is WaitingForPlayer2 ==> {
            &&& self.player1_deposit == self.stake_lamports
            &&& self.player2_deposit == 0
            &&& self.player1_fees_paid == 0
            &&& self.player2_fees_paid == 0
            &&& self.move_index == 0
        }
        &&& self.status is Active ==> {
            &&& self.player1_deposit == self.stake_lamports
            &&& self.player2_deposit == self.stake_lamports
        }
        &&& self.status is Finished ==> {
            &&& self.pot_lamports == 0
            &&& self.player1_deposit == 0
            &&& self.player2_deposit == 0
            &&& self.player1_fees_paid == 0
            &&& self.player2_fees_paid == 0
        }
        &&& self.winner matches Some(w) ==> {
            &&& self.status is Finished
            &&& (w == self.player1 || w == self.player2)
        }
    }
}

} // verus!
