use vstd::prelude::*;

use crate::errors::ErrorCode;
use crate::state::{GameState, Wallet};

verus! {

/// Moves `amount` from `from`'s balance into the session's custody and
/// records it as a stake deposit of the given player (`1` or `2`).
///
/// Fails closed with `NotEnoughBalanceForMove` when the balance cannot cover
/// the amount and with `MathOverflow` when a counter would wrap; on any
/// failure neither the session nor the wallet changes.
pub fn credit_deposit(game: &mut GameState, from: &mut Wallet, player: u8, amount: u64) -> (r:
    Result<(), ErrorCode>)
    requires
        player == 1 || player == 2,
    ensures
        r is Ok <==> {
            &&& old(from).lamports >= amount
            &&& old(game).pot_lamports + amount <= u64::MAX
            &&& (if player == 1 {
                old(game).player1_deposit
            } else {
                old(game).player2_deposit
            }) + amount <= u64::MAX
        },
        r == Err::<(), ErrorCode>(ErrorCode::NotEnoughBalanceForMove) <==> old(from).lamports
            < amount,
        r is Err ==> *final(game) == *old(game) && *final(from) == *old(from) && (r
            == Err::<(), ErrorCode>(ErrorCode::NotEnoughBalanceForMove) || r == Err::<(),
            ErrorCode,
        >(ErrorCode::MathOverflow)),
        r is Ok && player == 1 ==> (*final(game) == GameState {
            pot_lamports: (old(game).pot_lamports + amount) as u64,
            player1_deposit: (old(game).player1_deposit + amount) as u64,
            ..*old(game)
        }),
        r is Ok && player == 2 ==> (*final(game) == GameState {
            pot_lamports: (old(game).pot_lamports + amount) as u64,
            player2_deposit: (old(game).player2_deposit + amount) as u64,
            ..*old(game)
        }),
        r is Ok ==> (*final(from) == Wallet {
            lamports: (old(from).lamports - amount) as u64,
            ..*old(from)
        }),
{
    if from.lamports < amount {
        return Err(ErrorCode::NotEnoughBalanceForMove);
    }
    let new_pot = match game.pot_lamports.checked_add(amount) {
        Some(v) => v,
        None => {
            return Err(ErrorCode::MathOverflow);
        },
    };
    let old_deposit = if player == 1 {
        game.player1_deposit
    } else {
        game.player2_deposit
    };
    let new_deposit = match old_deposit.checked_add(amount) {
        Some(v) => v,
        None => {
            return Err(ErrorCode::MathOverflow);
        },
    };
    from.lamports = from.lamports - amount;
    game.pot_lamports = new_pot;
    if player == 1 {
        game.player1_deposit = new_deposit;
    } else {
        game.player2_deposit = new_deposit;
    }
    Ok(())
}

/// Moves `amount` from `from`'s balance into the session's custody and
/// records it as a move fee charged to the given player (`1` or `2`).
///
/// Fails closed with `NotEnoughBalanceForMove` when the balance cannot cover
/// the fee and with `MathOverflow` when a counter would wrap; on any failure
/// neither the session nor the wallet changes.
pub fn credit_fee(game: &mut GameState, from: &mut Wallet, player: u8, amount: u64) -> (r: Result<
    (),
    ErrorCode,
>)
    requires
        player == 1 || player == 2,
    ensures
        r is Ok <==> {
            &&& old(from).lamports >= amount
            &&& old(game).pot_lamports + amount <= u64::MAX
            &&& (if player == 1 {
                old(game).player1_fees_paid
            } else {
                old(game).player2_fees_paid
            }) + amount <= u64::MAX
        },
        r == Err::<(), ErrorCode>(ErrorCode::NotEnoughBalanceForMove) <==> old(from).lamports
            < amount,
        r is Err ==> *final(game) == *old(game) && *final(from) == *old(from) && (r
            == Err::<(), ErrorCode>(ErrorCode::NotEnoughBalanceForMove) || r == Err::<(),
            ErrorCode,
        >(ErrorCode::MathOverflow)),
        r is Ok && player == 1 ==> (*final(game) == GameState {
            pot_lamports: (old(game).pot_lamports + amount) as u64,
            player1_fees_paid: (old(game).player1_fees_paid + amount) as u64,
            ..*old(game)
        }),
        r is Ok && player == 2 ==> (*final(game) == GameState {
            pot_lamports: (old(game).pot_lamports + amount) as u64,
            player2_fees_paid: (old(game).player2_fees_paid + amount) as u64,
            ..*old(game)
        }),
        r is Ok ==> (*final(from) == Wallet {
            lamports: (old(from).lamports - amount) as u64,
            ..*old(from)
        }),
{
    if from.lamports < amount {
        return Err(ErrorCode::NotEnoughBalanceForMove);
    }
    let new_pot = match game.pot_lamports.checked_add(amount) {
        Some(v) => v,
        None => {
            return Err(ErrorCode::MathOverflow);
        },
    };
    let old_fees = if player == 1 {
        game.player1_fees_paid
    } else {
        game.player2_fees_paid
    };
    let new_fees = match old_fees.checked_add(amount) {
        Some(v) => v,
        None => {
            return Err(ErrorCode::MathOverflow);
        },
    };
    from.lamports = from.lamports - amount;
    game.pot_lamports = new_pot;
    if player == 1 {
        game.player1_fees_paid = new_fees;
    } else {
        game.player2_fees_paid = new_fees;
    }
    Ok(())
}

/// Takes `amount` out of the session's custody and credits it to `to`'s
/// balance. Callers never ask for more than the pot holds.
///
/// Fails with `MathOverflow` when the recipient's balance would wrap; then
/// neither the session nor the wallet changes.
pub(crate) fn debit_pot(game: &mut GameState, to: &mut Wallet, amount: u64) -> (r: Result<
    (),
    ErrorCode,
>)
    requires
        amount <= old(game).pot_lamports,
    ensures
        r is Ok <==> old(to).lamports + amount <= u64::MAX,
        r is Err ==> *final(game) == *old(game) && *final(to) == *old(to) && r == Err::<(),
            ErrorCode,
        >(ErrorCode::MathOverflow),
        r is Ok ==> (*final(game) == GameState {
            pot_lamports: (old(game).pot_lamports - amount) as u64,
            ..*old(game)
        }),
        r is Ok ==> (*final(to) == Wallet {
            lamports: (old(to).lamports + amount) as u64,
            ..*old(to)
        }),
{
    let new_balance = match to.lamports.checked_add(amount) {
        Some(v) => v,
        None => {
            return Err(ErrorCode::MathOverflow);
        },
    };
    game.pot_lamports = game.pot_lamports - amount;
    to.lamports = new_balance;
    Ok(())
}

} // verus!
