use pooler::{
    cancel_before_join, finish_game, force_refund, init_game, join_game, make_move,
    CancelBeforeJoin, ErrorCode, FinishGame, ForceRefund, InitGame, JoinGame, MakeMove, PlayerId,
    Wallet,
};

const P1: PlayerId = PlayerId(11);
const P2: PlayerId = PlayerId(22);

#[test]
fn full_game_with_three_moves_and_winner() {
    let mut init = InitGame { player1: Wallet { owner: P1, lamports: 1000 } };
    let game = init_game(&mut init, 1, 100, 5, P2, [0u8; 64], 0);
    let mut game = game.expect("creation is funded");
    assert_eq!(game.pot_lamports, 100);
    assert_eq!(init.player1.lamports, 900);

    let mut join = JoinGame { player2: Wallet { owner: P2, lamports: 500 } };
    assert_eq!(join_game(&mut join, &mut game, 1), Ok(()));
    assert_eq!(game.pot_lamports, 200);
    assert_eq!(game.status, pooler::GameStatus::Active);
    assert_eq!(join.player2.lamports, 400);

    let mut w1 = init.player1;
    let mut w2 = join.player2;
    let callers = [P1, P2, P1];
    for (i, caller) in callers.iter().enumerate() {
        let mut acc = MakeMove { player1: w1, player2: w2 };
        let board = [(i + 1) as u8; 64];
        assert_eq!(make_move(&mut acc, &mut game, *caller, board, 2 + i as u64), Ok(()));
        assert_eq!(game.board_state, board);
        w1 = acc.player1;
        w2 = acc.player2;
    }
    assert_eq!(game.pot_lamports, 215);
    assert_eq!(game.move_index, 3);
    assert_eq!(game.current_turn, 2);
    assert_eq!(game.player1_fees_paid, 10);
    assert_eq!(game.player2_fees_paid, 5);
    assert_eq!(w1.lamports, 890);
    assert_eq!(w2.lamports, 395);

    let mut fin = FinishGame { player1: w1, player2: w2 };
    assert_eq!(finish_game(&mut fin, &mut game, P1), Ok(()));
    assert_eq!(fin.player1.lamports, 890 + 215);
    assert_eq!(fin.player2.lamports, 395);
    assert_eq!(game.pot_lamports, 0);
    assert_eq!(game.status, pooler::GameStatus::Finished);
    assert_eq!(game.winner, Some(P1));
}

#[test]
fn cancel_before_join_refunds_creator() {
    let mut init = InitGame { player1: Wallet { owner: P1, lamports: 1000 } };
    let mut game = init_game(&mut init, 2, 50, 1, P2, [0u8; 64], 0).expect("creation is funded");
    assert_eq!(init.player1.lamports, 950);

    let mut cancel = CancelBeforeJoin { player1: init.player1 };
    assert_eq!(cancel_before_join(&mut cancel, &mut game), Ok(()));
    assert_eq!(cancel.player1.lamports, 1000);
    assert_eq!(game.pot_lamports, 0);
    assert_eq!(game.status, pooler::GameStatus::Finished);
    assert_eq!(game.winner, None);

    let mut join = JoinGame { player2: Wallet { owner: P2, lamports: 500 } };
    assert_eq!(
        join_game(&mut join, &mut game, 1),
        Err(ErrorCode::GameNotWaitingForPlayer2)
    );
    assert_eq!(join.player2.lamports, 500);
}

#[test]
fn force_refund_after_timeout_splits_by_contribution() {
    let mut init = InitGame { player1: Wallet { owner: P1, lamports: 1000 } };
    let mut game = init_game(&mut init, 3, 100, 10, P2, [0u8; 64], 0).expect("creation is funded");
    let mut join = JoinGame { player2: Wallet { owner: P2, lamports: 1000 } };
    assert_eq!(join_game(&mut join, &mut game, 0), Ok(()));

    let mut mv = MakeMove { player1: init.player1, player2: join.player2 };
    assert_eq!(make_move(&mut mv, &mut game, P1, [9u8; 64], 10), Ok(()));
    assert_eq!(game.pot_lamports, 210);
    assert_eq!(game.player1_fees_paid, 10);

    let mut refund = ForceRefund { player1: mv.player1, player2: mv.player2 };
    assert_eq!(
        force_refund(&mut refund, &mut game, 12),
        Err(ErrorCode::TimeoutNotReached)
    );
    assert_eq!(game.pot_lamports, 210);

    assert_eq!(force_refund(&mut refund, &mut game, 15), Ok(()));
    assert_eq!(refund.player1.lamports, 890 + 110);
    assert_eq!(refund.player2.lamports, 900 + 100);
    assert_eq!(game.pot_lamports, 0);
    assert_eq!(game.status, pooler::GameStatus::Finished);
    assert_eq!(game.winner, None);
}

#[test]
fn move_by_wrong_player_changes_nothing() {
    let mut init = InitGame { player1: Wallet { owner: P1, lamports: 1000 } };
    let mut game = init_game(&mut init, 4, 100, 5, P2, [3u8; 64], 0).expect("creation is funded");
    let mut join = JoinGame { player2: Wallet { owner: P2, lamports: 500 } };
    assert_eq!(join_game(&mut join, &mut game, 0), Ok(()));

    let before_game = game.clone();
    let mut acc = MakeMove { player1: init.player1, player2: join.player2 };
    let before_acc = acc;
    assert_eq!(
        make_move(&mut acc, &mut game, P2, [4u8; 64], 1),
        Err(ErrorCode::NotPlayersTurn)
    );
    assert_eq!(game, before_game);
    assert_eq!(acc, before_acc);
}

#[test]
fn move_without_balance_changes_nothing() {
    let mut init = InitGame { player1: Wallet { owner: P1, lamports: 100 } };
    let mut game = init_game(&mut init, 5, 100, 5, P2, [0u8; 64], 0).expect("creation is funded");
    let mut join = JoinGame { player2: Wallet { owner: P2, lamports: 100 } };
    assert_eq!(join_game(&mut join, &mut game, 0), Ok(()));

    assert_eq!(init.player1.lamports, 0);
    let before_game = game.clone();
    let mut acc = MakeMove { player1: init.player1, player2: join.player2 };
    let before_acc = acc;
    assert_eq!(
        make_move(&mut acc, &mut game, P1, [1u8; 64], 1),
        Err(ErrorCode::NotEnoughBalanceForMove)
    );
    assert_eq!(game, before_game);
    assert_eq!(acc, before_acc);
    assert_eq!(game.player1_fees_paid, 0);
    assert_eq!(game.player2_fees_paid, 0);
}
