use vstd::prelude::*;

use crate::errors::ErrorCode;
use crate::ledger::debit_pot;
use crate::state::{GameState, GameStatus, Wallet};

verus! {

/// Pays the whole pot to `to`, records its owner as the winner, zeroes the
/// pot and every per-player counter, and finishes the session.
///
/// Fails with `MathOverflow` when the recipient's balance would wrap; then
/// nothing changes.
pub fn settle_winner_take_all(game: &mut GameState, to: &mut Wallet) -> (r: Result<(), ErrorCode>)
    requires
        old(game).wf(),
        old(game).status is Active,
        old(to).owner == old(game).player1 || old(to).owner == old(game).player2,
    ensures
        r is Ok <==> old(to).lamports + old(game).pot_lamports <= u64::MAX,
        r is Err ==> *final(game) == *old(game) && *final(to) == *old(to) && r == Err::<(),
            ErrorCode,
        >(ErrorCode::MathOverflow),
        r is Ok ==> (*final(game) == GameState {
            pot_lamports: 0,
            player1_deposit: 0,
            player2_deposit: 0,
            player1_fees_paid: 0,
            player2_fees_paid: 0,
            status: GameStatus::Finished,
            winner: Some(old(to).owner),
            ..*old(game)
        }),
        r is Ok ==> (*final(to) == Wallet {
            lamports: (old(to).lamports + old(game).pot_lamports) as u64,
            ..*old(to)
        }),
        r is Ok ==> final(game).wf(),
{
    match debit_pot(game, to, game.pot_lamports) {
        Ok(()) => {},
        Err(e) => {
            return Err(e);
        },
    }
    game.player1_deposit = 0;
    game.player2_deposit = 0;
    game.player1_fees_paid = 0;
    game.player2_fees_paid = 0;
    game.status = GameStatus::Finished;
    game.winner = Some(to.owner);
    Ok(())
}

/// Returns the whole pot to `to` (the creator) before the second player has
/// joined: at that point the pot provably equals the creator's deposit, which
/// is the stake. Zeroes the pot and every per-player counter and finishes the
/// session; no winner is recorded.
///
/// Fails with `MathOverflow` when the recipient's balance would wrap; then
/// nothing changes.
pub fn settle_full_refund(game: &mut GameState, to: &mut Wallet) -> (r: Result<(), ErrorCode>)
    requires
        old(game).wf(),
        old(game).status is WaitingForPlayer2,
        old(to).owner == old(game).player1,
    ensures
        old(game).pot_lamports == old(game).stake_lamports,
        r is Ok <==> old(to).lamports + old(game).pot_lamports <= u64::MAX,
        r is Err ==> *final(game) == *old(game) && *final(to) == *old(to) && r == Err::<(),
            ErrorCode,
        >(ErrorCode::MathOverflow),
        r is Ok ==> (*final(game) == GameState {
            pot_lamports: 0,
            player1_deposit: 0,
            player2_deposit: 0,
            player1_fees_paid: 0,
            player2_fees_paid: 0,
            status: GameStatus::Finished,
            ..*old(game)
        }),
        r is Ok ==> final(game).winner is None,
        r is Ok ==> (*final(to) == Wallet {
            lamports: (old(to).lamports + old(game).pot_lamports) as u64,
            ..*old(to)
        }),
        r is Ok ==> final(game).wf(),
{
    match debit_pot(game, to, game.pot_lamports) {
        Ok(()) => {},
        Err(e) => {
            return Err(e);
        },
    }
    game.player1_deposit = 0;
    game.player2_deposit = 0;
    game.player1_fees_paid = 0;
    game.player2_fees_paid = 0;
    game.status = GameStatus::Finished;
    Ok(())
}

/// Splits the pot between the two wallets in proportion to contributions:
/// each side receives exactly its own deposit plus the fees it paid. Before
/// paying out, defensively re-checks that the recorded contributions add up
/// to the pot, and fails with `InconsistentPot` on any mismatch, so that
/// bookkeeping drift is never silently paid out. Zeroes the pot and every
/// per-player counter and finishes the session; the winner field is left as
/// it was.
///
/// On any failure nothing changes. The two payouts together always equal the
/// pot as it stood before settlement.
pub fn settle_proportional(game: &mut GameState, w1: &mut Wallet, w2: &mut Wallet) -> (r: Result<
    (),
    ErrorCode,
>)
    ensures
        r is Ok <==> {
            &&& old(game).player1_share() <= u64::MAX
            &&& old(game).player2_share() <= u64::MAX
            &&& old(game).contributions() <= u64::MAX
            &&& old(game).contributions() == old(game).pot_lamports
            &&& old(w1).lamports + old(game).player1_share() <= u64::MAX
            &&& old(w2).lamports + old(game).player2_share() <= u64::MAX
        },
        r == Err::<(), ErrorCode>(ErrorCode::InconsistentPot) <==> {
            &&& old(game).player1_share() <= u64::MAX
            &&& old(game).player2_share() <= u64::MAX
            &&& old(game).contributions() <= u64::MAX
            &&& old(game).contributions() != old(game).pot_lamports
        },
        r is Err ==> *final(game) == *old(game) && *final(w1) == *old(w1) && *final(w2) == *old(
            w2,
        ) && (r == Err::<(), ErrorCode>(ErrorCode::InconsistentPot) || r == Err::<(),
            ErrorCode,
        >(ErrorCode::MathOverflow)),
        r is Ok ==> (*final(game) == GameState {
            pot_lamports: 0,
            player1_deposit: 0,
            player2_deposit: 0,
            player1_fees_paid: 0,
            player2_fees_paid: 0,
            status: GameStatus::Finished,
            ..*old(game)
        }),
        r is Ok ==> (*final(w1) == Wallet {
            lamports: (old(w1).lamports + old(game).player1_share()) as u64,
            ..*old(w1)
        }),
        r is Ok ==> (*final(w2) == Wallet {
            lamports: (old(w2).lamports + old(game).player2_share()) as u64,
            ..*old(w2)
        }),
        r is Ok ==> final(w1).lamports + final(w2).lamports == old(w1).lamports + old(w2).lamports
            + old(game).pot_lamports,
{
    let total_p1 = match game.player1_deposit.checked_add(game.player1_fees_paid) {
        Some(v) => v,
        None => {
            return Err(ErrorCode::MathOverflow);
        },
    };
    let total_p2 = match game.player2_deposit.checked_add(game.player2_fees_paid) {
        Some(v) => v,
        None => {
            return Err(ErrorCode::MathOverflow);
        },
    };
    let total = match total_p1.checked_add(total_p2) {
        Some(v) => v,
        None => {
            return Err(ErrorCode::MathOverflow);
        },
    };
    if total != game.pot_lamports {
        return Err(ErrorCode::InconsistentPot);
    }
    let new_balance1 = match w1.lamports.checked_add(total_p1) {
        Some(v) => v,
        None => {
            return Err(ErrorCode::MathOverflow);
        },
    };
    let new_balance2 = match w2.lamports.checked_add(total_p2) {
        Some(v) => v,
        None => {
            return Err(ErrorCode::MathOverflow);
        },
    };
    w1.lamports = new_balance1;
    w2.lamports = new_balance2;
    game.pot_lamports = 0;
    game.player1_deposit = 0;
    game.player2_deposit = 0;
    game.player1_fees_paid = 0;
    game.player2_fees_paid = 0;
    game.status = GameStatus::Finished;
    Ok(())
}

} // verus!
