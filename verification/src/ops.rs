use vstd::prelude::*;

use crate::errors::ErrorCode;
use crate::ledger::{credit_deposit, credit_fee};
use crate::settlement::{settle_full_refund, settle_proportional, settle_winner_take_all};
use crate::state::{status_rank, GameState, GameStatus, PlayerId, Wallet};
use crate::timeout::{timeout_reached, FORCE_REFUND_TIMEOUT_SLOTS};

verus! {

/// The accounts a session creation acts on: the creator's wallet, which
/// funds the first stake.
#[derive(Clone, Copy, Debug, PartialEq, Eq, Structural)]
pub struct InitGame {
    pub player1: Wallet,
}

/// The accounts a join acts on: the second player's wallet, which funds its
/// stake. Its owner is the authenticated caller.
#[derive(Clone, Copy, Debug, PartialEq, Eq, Structural)]
pub struct JoinGame {
    pub player2: Wallet,
}

/// The accounts a move acts on: both players' wallets; whichever one matches
/// the turn pays the move fee.
#[derive(Clone, Copy, Debug, PartialEq, Eq, Structural)]
pub struct MakeMove {
    pub player1: Wallet,
    pub player2: Wallet,
}

/// The accounts a finish acts on. Presenting both players' wallets stands
/// for dual-party consent: the call carries both authenticated principals.
#[derive(Clone, Copy, Debug, PartialEq, Eq, Structural)]
pub struct FinishGame {
    pub player1: Wallet,
    pub player2: Wallet,
}

/// The accounts a cancellation acts on: the creator's wallet, which receives
/// the refund. Its owner is the authenticated caller.
#[derive(Clone, Copy, Debug, PartialEq, Eq, Structural)]
pub struct CancelBeforeJoin {
    pub player1: Wallet,
}

/// The accounts a refund settlement acts on: both players' wallets, each
/// receiving its own contributions back. For the mutual manual refund,
/// presenting both wallets stands for dual-party consent.
#[derive(Clone, Copy, Debug, PartialEq, Eq, Structural)]
pub struct ForceRefund {
    pub player1: Wallet,
    pub player2: Wallet,
}

impl MakeMove {
    /// Both presented wallets belong to the players the session records.
    pub open spec fn ids_match(self, g: GameState) -> bool {
        self.player1.owner == g.player1 && self.player2.owner == g.player2
    }

    /// The wallet that pays for the next move, read off the turn marker.
    pub open spec fn acting_wallet(self, g: GameState) -> Wallet
        recommends
            g.current_turn == 1 || g.current_turn == 2,
    {
        if g.current_turn == 1 {
            self.player1
        } else {
            self.player2
        }
    }
}

impl FinishGame {
    /// Both presented wallets belong to the players the session records.
    pub open spec fn ids_match(self, g: GameState) -> bool {
        self.player1.owner == g.player1 && self.player2.owner == g.player2
    }

    /// The wallet the pot goes to when `w` wins.
    pub open spec fn winner_wallet(self, g: GameState, w: PlayerId) -> Wallet
        recommends
            w == g.player1 || w == g.player2,
    {
        if w == g.player1 {
            self.player1
        } else {
            self.player2
        }
    }
}

impl ForceRefund {
    /// Both presented wallets belong to the players the session records.
    pub open spec fn ids_match(self, g: GameState) -> bool {
        self.player1.owner == g.player1 && self.player2.owner == g.player2
    }
}

/// Creates a session: records both identities, the stake and the move fee,
/// stores the initial board, and atomically funds the first stake from the
/// creator's wallet. The new session waits for player 2, the pot holds
/// exactly the stake, and it is player 1's turn.
///
/// Fails closed with `NotEnoughBalanceForMove` when the creator's balance
/// cannot cover the stake; the wallet is then unchanged and no session
/// exists.
pub fn init_game(
    accounts: &mut InitGame,
    game_id: u64,
    stake_lamports: u64,
    move_fee_lamports: u64,
    player2_pubkey: PlayerId,
    initial_board_state: [u8; 64],
    now_slot: u64,
) -> (r: Result<GameState, ErrorCode>)
    ensures
        r is Ok <==> old(accounts).player1.lamports >= stake_lamports,
        r is Err ==> r == Err::<GameState, ErrorCode>(ErrorCode::NotEnoughBalanceForMove)
            && *final(accounts) == *old(accounts),
        r matches Ok(g) ==> g == (GameState {
            player1: old(accounts).player1.owner,
            player2: player2_pubkey,
            game_id: game_id,
            stake_lamports: stake_lamports,
            move_fee_lamports: move_fee_lamports,
            pot_lamports: stake_lamports,
            player1_deposit: stake_lamports,
            player2_deposit: 0,
            player1_fees_paid: 0,
            player2_fees_paid: 0,
            last_activity_slot: now_slot,
            move_index: 0,
            board_state: initial_board_state,
            current_turn: 1,
            status: GameStatus::WaitingForPlayer2,
            winner: None,
        }),
        r matches Ok(g) ==> g.wf(),
        r is Ok ==> (*final(accounts) == InitGame {
            player1: Wallet {
                lamports: (old(accounts).player1.lamports - stake_lamports) as u64,
                ..old(accounts).player1
            },
        }),
{
    let mut game = GameState {
        player1: accounts.player1.owner,
        player2: player2_pubkey,
        game_id,
        stake_lamports,
        move_fee_lamports,
        pot_lamports: 0,
        player1_deposit: 0,
        player2_deposit: 0,
        player1_fees_paid: 0,
        player2_fees_paid: 0,
        last_activity_slot: now_slot,
        move_index: 0,
        board_state: initial_board_state,
        current_turn: 1,
        status: GameStatus::WaitingForPlayer2,
        winner: None,
    };
    match credit_deposit(&mut game, &mut accounts.player1, 1, stake_lamports) {
        Ok(()) => {},
        Err(e) => {
            return Err(e);
        },
    }
    Ok(game)
}

/// Joins the pre-declared second player to a waiting session: atomically
/// funds its stake from its wallet, refreshes the activity clock, and
/// activates the session.
///
/// Fails with `GameNotWaitingForPlayer2` when the session has moved on, with
/// `InvalidPlayer2` when the presented wallet is not the declared opponent's,
/// with `NotEnoughBalanceForMove` when the balance cannot cover the stake,
/// and with `MathOverflow` when the pot would wrap; on any failure nothing
/// changes.
pub fn join_game(accounts: &mut JoinGame, game: &mut GameState, now_slot: u64) -> (r: Result<
    (),
    ErrorCode,
>)
    requires
        old(game).wf(),
    ensures
        final(game).wf(),
        status_rank(old(game).status) <= status_rank(final(game).status),
        old(game).status is Finished ==> r is Err,
        r is Err ==> *final(game) == *old(game) && *final(accounts) == *old(accounts),
        r == Err::<(), ErrorCode>(ErrorCode::GameNotWaitingForPlayer2) <==> !(old(
            game,
        ).status is WaitingForPlayer2),
        r == Err::<(), ErrorCode>(ErrorCode::InvalidPlayer2) <==> old(
            game,
        ).status is WaitingForPlayer2 && old(accounts).player2.owner != old(game).player2,
        r == Err::<(), ErrorCode>(ErrorCode::NotEnoughBalanceForMove) <==> {
            &&& old(game).status is WaitingForPlayer2
            &&& old(accounts).player2.owner == old(game).player2
            &&& old(accounts).player2.lamports < old(game).stake_lamports
        },
        r == Err::<(), ErrorCode>(ErrorCode::MathOverflow) <==> {
            &&& old(game).status is WaitingForPlayer2
            &&& old(accounts).player2.owner == old(game).player2
            &&& old(accounts).player2.lamports >= old(game).stake_lamports
            &&& old(game).pot_lamports + old(game).stake_lamports > u64::MAX
        },
        r is Ok <==> {
            &&& old(game).status is WaitingForPlayer2
            &&& old(accounts).player2.owner == old(game).player2
            &&& old(accounts).player2.lamports >= old(game).stake_lamports
            &&& old(game).pot_lamports + old(game).stake_lamports <= u64::MAX
        },
        r is Ok ==> (*final(game) == GameState {
            pot_lamports: (old(game).pot_lamports + old(game).stake_lamports) as u64,
            player2_deposit: old(game).stake_lamports,
            last_activity_slot: now_slot,
            status: GameStatus::Active,
            ..*old(game)
        }),
        r is Ok ==> (*final(accounts) == JoinGame {
            player2: Wallet {
                lamports: (old(accounts).player2.lamports - old(game).stake_lamports) as u64,
                ..old(accounts).player2
            },
        }),
{
    if game.status != GameStatus::WaitingForPlayer2 {
        return Err(ErrorCode::GameNotWaitingForPlayer2);
    }
    if accounts.player2.owner != game.player2 {
        return Err(ErrorCode::InvalidPlayer2);
    }
    let stake = game.stake_lamports;
    match credit_deposit(game, &mut accounts.player2, 2, stake) {
        Ok(()) => {},
        Err(e) => {
            return Err(e);
        },
    }
    game.last_activity_slot = now_slot;
    game.status = GameStatus::Active;
    Ok(())
}

/// Performs one move for `caller`, who must be the player whose turn it is:
/// atomically charges the move fee from that player's wallet into the pot,
/// overwrites the board with the caller-supplied payload (opaque to the
/// session), counts the move, flips the turn, and refreshes the activity
/// clock.
///
/// Fails with `InvalidPlayer1`/`InvalidPlayer2` when a presented wallet is
/// not a recorded player's, `GameNotActive` when the session is not active,
/// `NotPlayersTurn` when `caller` is not the current-turn player,
/// `NotEnoughBalanceForMove` when the acting balance cannot cover the fee,
/// and `MathOverflow` when a counter would wrap; on any failure nothing
/// changes.
pub fn make_move(
    accounts: &mut MakeMove,
    game: &mut GameState,
    caller: PlayerId,
    new_board_state: [u8; 64],
    now_slot: u64,
) -> (r: Result<(), ErrorCode>)
    requires
        old(game).wf(),
    ensures
        final(game).wf(),
        status_rank(old(game).status) <= status_rank(final(game).status),
        old(game).status is Finished ==> r is Err,
        r is Err ==> *final(game) == *old(game) && *final(accounts) == *old(accounts),
        r == Err::<(), ErrorCode>(ErrorCode::InvalidPlayer1) <==> old(accounts).player1.owner
            != old(game).player1,
        r == Err::<(), ErrorCode>(ErrorCode::InvalidPlayer2) <==> old(accounts).player1.owner
            == old(game).player1 && old(accounts).player2.owner != old(game).player2,
        r == Err::<(), ErrorCode>(ErrorCode::GameNotActive) <==> old(accounts).ids_match(
            *old(game),
        ) && !(old(game).status is Active),
        r != Err::<(), ErrorCode>(ErrorCode::InvalidCurrentTurn),
        r == Err::<(), ErrorCode>(ErrorCode::NotPlayersTurn) <==> {
            &&& old(accounts).ids_match(*old(game))
            &&& old(game).status is Active
            &&& caller != old(game).turn_player()
        },
        r == Err::<(), ErrorCode>(ErrorCode::NotEnoughBalanceForMove) <==> {
            &&& old(accounts).ids_match(*old(game))
            &&& old(game).status is Active
            &&& caller == old(game).turn_player()
            &&& old(accounts).acting_wallet(*old(game)).lamports < old(game).move_fee_lamports
        },
        r == Err::<(), ErrorCode>(ErrorCode::MathOverflow) <==> {
            &&& old(accounts).ids_match(*old(game))
            &&& old(game).status is Active
            &&& caller == old(game).turn_player()
            &&& old(accounts).acting_wallet(*old(game)).lamports >= old(game).move_fee_lamports
            &&& (old(game).move_index + 1 > u64::MAX || old(game).pot_lamports + old(
                game,
            ).move_fee_lamports > u64::MAX)
        },
        r is Ok <==> {
            &&& old(accounts).ids_match(*old(game))
            &&& old(game).status is Active
            &&& caller == old(game).turn_player()
            &&& old(accounts).acting_wallet(*old(game)).lamports >= old(game).move_fee_lamports
            &&& old(game).move_index + 1 <= u64::MAX
            &&& old(game).pot_lamports + old(game).move_fee_lamports <= u64::MAX
        },
        r is Ok && old(game).current_turn == 1 ==> (*final(game) == GameState {
            pot_lamports: (old(game).pot_lamports + old(game).move_fee_lamports) as u64,
            player1_fees_paid: (old(game).player1_fees_paid + old(game).move_fee_lamports) as u64,
            board_state: new_board_state,
            move_index: (old(game).move_index + 1) as u64,
            current_turn: 2,
            last_activity_slot: now_slot,
            ..*old(game)
        }),
        r is Ok && old(game).current_turn == 2 ==> (*final(game) == GameState {
            pot_lamports: (old(game).pot_lamports + old(game).move_fee_lamports) as u64,
            player2_fees_paid: (old(game).player2_fees_paid + old(game).move_fee_lamports) as u64,
            board_state: new_board_state,
            move_index: (old(game).move_index + 1) as u64,
            current_turn: 1,
            last_activity_slot: now_slot,
            ..*old(game)
        }),
        r is Ok && old(game).current_turn == 1 ==> (*final(accounts) == MakeMove {
            player1: Wallet {
                lamports: (old(accounts).player1.lamports - old(game).move_fee_lamports) as u64,
                ..old(accounts).player1
            },
            ..*old(accounts)
        }),
        r is Ok && old(game).current_turn == 2 ==> (*final(accounts) == MakeMove {
            player2: Wallet {
                lamports: (old(accounts).player2.lamports - old(game).move_fee_lamports) as u64,
                ..old(accounts).player2
            },
            ..*old(accounts)
        }),
{
    if accounts.player1.owner != game.player1 {
        return Err(ErrorCode::InvalidPlayer1);
    }
    if accounts.player2.owner != game.player2 {
        return Err(ErrorCode::InvalidPlayer2);
    }
    if game.status != GameStatus::Active {
        return Err(ErrorCode::GameNotActive);
    }
    let turn = game.current_turn;
    if turn != 1 && turn != 2 {
        return Err(ErrorCode::InvalidCurrentTurn);
    }
    let expected = if turn == 1 {
        game.player1
    } else {
        game.player2
    };
    if caller != expected {
        return Err(ErrorCode::NotPlayersTurn);
    }
    let fee = game.move_fee_lamports;
    let acting_balance = if turn == 1 {
        accounts.player1.lamports
    } else {
        accounts.player2.lamports
    };
    if acting_balance < fee {
        return Err(ErrorCode::NotEnoughBalanceForMove);
    }
    let new_index = match game.move_index.checked_add(1) {
        Some(v) => v,
        None => {
            return Err(ErrorCode::MathOverflow);
        },
    };
    let charged = if turn == 1 {
        credit_fee(game, &mut accounts.player1, 1, fee)
    } else {
        credit_fee(game, &mut accounts.player2, 2, fee)
    };
    match charged {
        Ok(()) => {},
        Err(e) => {
            return Err(e);
        },
    }
    game.board_state = new_board_state;
    game.move_index = new_index;
    game.current_turn = if turn == 1 {
        2
    } else {
        1
    };
    game.last_activity_slot = now_slot;
    Ok(())
}

/// Finishes an active session by paying the whole pot to the declared
/// winner, who must be one of the two players. Presenting both players'
/// wallets stands for dual-party consent to the result. The winner is
/// recorded and the session is terminal afterwards.
///
/// Fails with `InvalidPlayer1`/`InvalidPlayer2` when a presented wallet is
/// not a recorded player's, `GameNotActive` when the session is not active,
/// `InvalidWinner` when the declared winner is neither player, and
/// `MathOverflow` when the winner's balance would wrap; on any failure
/// nothing changes.
pub fn finish_game(accounts: &mut FinishGame, game: &mut GameState, winner: PlayerId) -> (r: Result<
    (),
    ErrorCode,
>)
    requires
        old(game).wf(),
    ensures
        final(game).wf(),
        status_rank(old(game).status) <= status_rank(final(game).status),
        old(game).status is Finished ==> r is Err,
        r is Err ==> *final(game) == *old(game) && *final(accounts) == *old(accounts),
        r == Err::<(), ErrorCode>(ErrorCode::InvalidPlayer1) <==> old(accounts).player1.owner
            != old(game).player1,
        r == Err::<(), ErrorCode>(ErrorCode::InvalidPlayer2) <==> old(accounts).player1.owner
            == old(game).player1 && old(accounts).player2.owner != old(game).player2,
        r == Err::<(), ErrorCode>(ErrorCode::GameNotActive) <==> old(accounts).ids_match(
            *old(game),
        ) && !(old(game).status is Active),
        r == Err::<(), ErrorCode>(ErrorCode::InvalidWinner) <==> {
            &&& old(accounts).ids_match(*old(game))
            &&& old(game).status is Active
            &&& winner != old(game).player1
            &&& winner != old(game).player2
        },
        r == Err::<(), ErrorCode>(ErrorCode::MathOverflow) <==> {
            &&& old(accounts).ids_match(*old(game))
            &&& old(game).status is Active
            &&& (winner == old(game).player1 || winner == old(game).player2)
            &&& old(accounts).winner_wallet(*old(game), winner).lamports + old(game).pot_lamports
                > u64::MAX
        },
        r is Ok <==> {
            &&& old(accounts).ids_match(*old(game))
            &&& old(game).status is Active
            &&& (winner == old(game).player1 || winner == old(game).player2)
            &&& old(accounts).winner_wallet(*old(game), winner).lamports + old(game).pot_lamports
                <= u64::MAX
        },
        r is Ok ==> (*final(game) == GameState {
            pot_lamports: 0,
            player1_deposit: 0,
            player2_deposit: 0,
            player1_fees_paid: 0,
            player2_fees_paid: 0,
            status: GameStatus::Finished,
            winner: Some(winner),
            ..*old(game)
        }),
        r is Ok && winner == old(game).player1 ==> (*final(accounts) == FinishGame {
            player1: Wallet {
                lamports: (old(accounts).player1.lamports + old(game).pot_lamports) as u64,
                ..old(accounts).player1
            },
            ..*old(accounts)
        }),
        r is Ok && winner != old(game).player1 ==> (*final(accounts) == FinishGame {
            player2: Wallet {
                lamports: (old(accounts).player2.lamports + old(game).pot_lamports) as u64,
                ..old(accounts).player2
            },
            ..*old(accounts)
        }),
        r is Ok ==> final(accounts).player1.lamports + final(accounts).player2.lamports == old(
            accounts,
        ).player1.lamports + old(accounts).player2.lamports + old(game).pot_lamports,
{
    if accounts.player1.owner != game.player1 {
        return Err(ErrorCode::InvalidPlayer1);
    }
    if accounts.player2.owner != game.player2 {
        return Err(ErrorCode::InvalidPlayer2);
    }
    if game.status != GameStatus::Active {
        return Err(ErrorCode::GameNotActive);
    }
    if winner != game.player1 && winner != game.player2 {
        return Err(ErrorCode::InvalidWinner);
    }
    let settled = if winner == game.player1 {
        settle_winner_take_all(game, &mut accounts.player1)
    } else {
        settle_winner_take_all(game, &mut accounts.player2)
    };
    match settled {
        Ok(()) => Ok(()),
        Err(e) => Err(e),
    }
}

/// Cancels a session that is still waiting for its second player, refunding
/// the whole pot (exactly the creator's stake) to the creator, whose wallet
/// is the one presented. The session is terminal afterwards and no winner is
/// recorded.
///
/// Fails with `InvalidPlayer1` when the presented wallet is not the
/// creator's, `GameNotWaitingForPlayer2` when the session has moved on, and
/// `MathOverflow` when the creator's balance would wrap; on any failure
/// nothing changes.
pub fn cancel_before_join(accounts: &mut CancelBeforeJoin, game: &mut GameState) -> (r: Result<
    (),
    ErrorCode,
>)
    requires
        old(game).wf(),
    ensures
        final(game).wf(),
        status_rank(old(game).status) <= status_rank(final(game).status),
        old(game).status is Finished ==> r is Err,
        r is Err ==> *final(game) == *old(game) && *final(accounts) == *old(accounts),
        r == Err::<(), ErrorCode>(ErrorCode::InvalidPlayer1) <==> old(accounts).player1.owner
            != old(game).player1,
        r == Err::<(), ErrorCode>(ErrorCode::GameNotWaitingForPlayer2) <==> old(
            accounts,
        ).player1.owner == old(game).player1 && !(old(game).status is WaitingForPlayer2),
        r == Err::<(), ErrorCode>(ErrorCode::MathOverflow) <==> {
            &&& old(accounts).player1.owner == old(game).player1
            &&& old(game).status is WaitingForPlayer2
            &&& old(accounts).player1.lamports + old(game).pot_lamports > u64::MAX
        },
        r is Ok <==> {
            &&& old(accounts).player1.owner == old(game).player1
            &&& old(game).status is WaitingForPlayer2
            &&& old(accounts).player1.lamports + old(game).pot_lamports <= u64::MAX
        },
        r is Ok ==> (*final(game) == GameState {
            pot_lamports: 0,
            player1_deposit: 0,
            player2_deposit: 0,
            player1_fees_paid: 0,
            player2_fees_paid: 0,
            status: GameStatus::Finished,
            ..*old(game)
        }),
        r is Ok ==> final(game).winner is None,
        r is Ok ==> (*final(accounts) == CancelBeforeJoin {
            player1: Wallet {
                lamports: (old(accounts).player1.lamports + old(game).pot_lamports) as u64,
                ..old(accounts).player1
            },
        }),
        r is Ok ==> final(accounts).player1.lamports == old(accounts).player1.lamports + old(
            game,
        ).stake_lamports,
{
    if accounts.player1.owner != game.player1 {
        return Err(ErrorCode::InvalidPlayer1);
    }
    if game.status != GameStatus::WaitingForPlayer2 {
        return Err(ErrorCode::GameNotWaitingForPlayer2);
    }
    match settle_full_refund(game, &mut accounts.player1) {
        Ok(()) => Ok(()),
        Err(e) => Err(e),
    }
}

/// Forces a refund of a stalled active session: once at least
/// `FORCE_REFUND_TIMEOUT_SLOTS` slots have passed since the last activity,
/// either party can split the pot so that each player receives back exactly
/// its own deposit and fees. The session is terminal afterwards and no
/// winner is recorded.
///
/// Fails with `InvalidPlayer1`/`InvalidPlayer2` when a presented wallet is
/// not a recorded player's, `GameNotActive` when the session is not active,
/// `MathOverflow` when the clock appears to have gone backward or a balance
/// would wrap, and `TimeoutNotReached` when too little time has passed; on
/// any failure nothing changes. The defensive `InconsistentPot` check never
/// fires on a well-formed session.
pub fn force_refund(accounts: &mut ForceRefund, game: &mut GameState, now_slot: u64) -> (r: Result<
    (),
    ErrorCode,
>)
    requires
        old(game).wf(),
    ensures
        final(game).wf(),
        status_rank(old(game).status) <= status_rank(final(game).status),
        old(game).status is Finished ==> r is Err,
        r is Err ==> *final(game) == *old(game) && *final(accounts) == *old(accounts),
        r == Err::<(), ErrorCode>(ErrorCode::InvalidPlayer1) <==> old(accounts).player1.owner
            != old(game).player1,
        r == Err::<(), ErrorCode>(ErrorCode::InvalidPlayer2) <==> old(accounts).player1.owner
            == old(game).player1 && old(accounts).player2.owner != old(game).player2,
        r == Err::<(), ErrorCode>(ErrorCode::GameNotActive) <==> old(accounts).ids_match(
            *old(game),
        ) && !(old(game).status is Active),
        r == Err::<(), ErrorCode>(ErrorCode::TimeoutNotReached) <==> {
            &&& old(accounts).ids_match(*old(game))
            &&& old(game).status is Active
            &&& now_slot >= old(game).last_activity_slot
            &&& now_slot - old(game).last_activity_slot < FORCE_REFUND_TIMEOUT_SLOTS
        },
        r == Err::<(), ErrorCode>(ErrorCode::MathOverflow) <==> {
            &&& old(accounts).ids_match(*old(game))
            &&& old(game).status is Active
            &&& (now_slot < old(game).last_activity_slot || {
                &&& now_slot - old(game).last_activity_slot >= FORCE_REFUND_TIMEOUT_SLOTS
                &&& (old(accounts).player1.lamports + old(game).player1_share() > u64::MAX || old(
                    accounts,
                ).player2.lamports + old(game).player2_share() > u64::MAX)
            })
        },
        r != Err::<(), ErrorCode>(ErrorCode::InconsistentPot),
        r is Ok <==> {
            &&& old(accounts).ids_match(*old(game))
            &&& old(game).status is Active
            &&& now_slot >= old(game).last_activity_slot
            &&& now_slot - old(game).last_activity_slot >= FORCE_REFUND_TIMEOUT_SLOTS
            &&& old(accounts).player1.lamports + old(game).player1_share() <= u64::MAX
            &&& old(accounts).player2.lamports + old(game).player2_share() <= u64::MAX
        },
        r is Ok ==> (*final(game) == GameState {
            pot_lamports: 0,
            player1_deposit: 0,
            player2_deposit: 0,
            player1_fees_paid: 0,
            player2_fees_paid: 0,
            status: GameStatus::Finished,
            ..*old(game)
        }),
        r is Ok ==> final(game).winner is None,
        r is Ok ==> (*final(accounts) == ForceRefund {
            player1: Wallet {
                lamports: (old(accounts).player1.lamports + old(game).player1_share()) as u64,
                ..old(accounts).player1
            },
            player2: Wallet {
                lamports: (old(accounts).player2.lamports + old(game).player2_share()) as u64,
                ..old(accounts).player2
            },
        }),
        r is Ok ==> final(accounts).player1.lamports + final(accounts).player2.lamports == old(
            accounts,
        ).player1.lamports + old(accounts).player2.lamports + old(game).pot_lamports,
{
    if accounts.player1.owner != game.player1 {
        return Err(ErrorCode::InvalidPlayer1);
    }
    if accounts.player2.owner != game.player2 {
        return Err(ErrorCode::InvalidPlayer2);
    }
    if game.status != GameStatus::Active {
        return Err(ErrorCode::GameNotActive);
    }
    let eligible = match timeout_reached(now_slot, game.last_activity_slot) {
        Ok(b) => b,
        Err(e) => {
            return Err(e);
        },
    };
    if !eligible {
        return Err(ErrorCode::TimeoutNotReached);
    }
    match settle_proportional(game, &mut accounts.player1, &mut accounts.player2) {
        Ok(()) => Ok(()),
        Err(e) => Err(e),
    }
}

/// Refunds an active session by mutual agreement, without any timeout: the
/// pot is split so that each player receives back exactly its own deposit
/// and fees. Presenting both players' wallets stands for dual-party consent.
/// The session is terminal afterwards and no winner is recorded.
///
/// Fails with `InvalidPlayer1`/`InvalidPlayer2` when a presented wallet is
/// not a recorded player's, `GameNotActive` when the session is not active,
/// and `MathOverflow` when a balance would wrap; on any failure nothing
/// changes. The defensive `InconsistentPot` check never fires on a
/// well-formed session.
pub fn manual_refund(accounts: &mut ForceRefund, game: &mut GameState) -> (r: Result<
    (),
    ErrorCode,
>)
    requires
        old(game).wf(),
    ensures
        final(game).wf(),
        status_rank(old(game).status) <= status_rank(final(game).status),
        old(game).status is Finished ==> r is Err,
        r is Err ==> *final(game) == *old(game) && *final(accounts) == *old(accounts),
        r == Err::<(), ErrorCode>(ErrorCode::InvalidPlayer1) <==> old(accounts).player1.owner
            != old(game).player1,
        r == Err::<(), ErrorCode>(ErrorCode::InvalidPlayer2) <==> old(accounts).player1.owner
            == old(game).player1 && old(accounts).player2.owner != old(game).player2,
        r == Err::<(), ErrorCode>(ErrorCode::GameNotActive) <==> old(accounts).ids_match(
            *old(game),
        ) && !(old(game).status is Active),
        r == Err::<(), ErrorCode>(ErrorCode::MathOverflow) <==> {
            &&& old(accounts).ids_match(*old(game))
            &&& old(game).status is Active
            &&& (old(accounts).player1.lamports + old(game).player1_share() > u64::MAX || old(
                accounts,
            ).player2.lamports + old(game).player2_share() > u64::MAX)
        },
        r != Err::<(), ErrorCode>(ErrorCode::InconsistentPot),
        r is Ok <==> {
            &&& old(accounts).ids_match(*old(game))
            &&& old(game).status is Active
            &&& old(accounts).player1.lamports + old(game).player1_share() <= u64::MAX
            &&& old(accounts).player2.lamports + old(game).player2_share() <= u64::MAX
        },
        r is Ok ==> (*final(game) == GameState {
            pot_lamports: 0,
            player1_deposit: 0,
            player2_deposit: 0,
            player1_fees_paid: 0,
            player2_fees_paid: 0,
            status: GameStatus::Finished,
            ..*old(game)
        }),
        r is Ok ==> final(game).winner is None,
        r is Ok ==> (*final(accounts) == ForceRefund {
            player1: Wallet {
                lamports: (old(accounts).player1.lamports + old(game).player1_share()) as u64,
                ..old(accounts).player1
            },
            player2: Wallet {
                lamports: (old(accounts).player2.lamports + old(game).player2_share()) as u64,
                ..old(accounts).player2
            },
        }),
        r is Ok ==> final(accounts).player1.lamports + final(accounts).player2.lamports == old(
            accounts,
        ).player1.lamports + old(accounts).player2.lamports + old(game).pot_lamports,
{
    if accounts.player1.owner != game.player1 {
        return Err(ErrorCode::InvalidPlayer1);
    }
    if accounts.player2.owner != game.player2 {
        return Err(ErrorCode::InvalidPlayer2);
    }
    if game.status != GameStatus::Active {
        return Err(ErrorCode::GameNotActive);
    }
    match settle_proportional(game, &mut accounts.player1, &mut accounts.player2) {
        Ok(()) => Ok(()),
        Err(e) => Err(e),
    }
}

} // verus!
