use pooler::{
    cancel_before_join, finish_game, force_refund, init_game, join_game, make_move, manual_refund,
    CancelBeforeJoin, ErrorCode, FinishGame, ForceRefund, GameState, GameStatus, InitGame,
    JoinGame, MakeMove, PlayerId, Wallet,
};

const P1: PlayerId = PlayerId(1);
const P2: PlayerId = PlayerId(2);

fn contributions(g: &GameState) -> u64 {
    g.player1_deposit + g.player2_deposit + g.player1_fees_paid + g.player2_fees_paid
}

#[test]
fn pot_always_equals_contributions_until_finished() {
    let mut init = InitGame { player1: Wallet { owner: P1, lamports: 1000 } };
    let mut game = init_game(&mut init, 1, 100, 5, P2, [0u8; 64], 0).expect("creation is funded");
    assert_eq!(game.pot_lamports, contributions(&game));

    let mut join = JoinGame { player2: Wallet { owner: P2, lamports: 1000 } };
    assert_eq!(join_game(&mut join, &mut game, 1), Ok(()));
    assert_eq!(game.pot_lamports, contributions(&game));

    let mut w1 = init.player1;
    let mut w2 = join.player2;
    for (i, caller) in [P1, P2].iter().enumerate() {
        let mut acc = MakeMove { player1: w1, player2: w2 };
        assert_eq!(make_move(&mut acc, &mut game, *caller, [7u8; 64], 2 + i as u64), Ok(()));
        assert_eq!(game.pot_lamports, contributions(&game));
        w1 = acc.player1;
        w2 = acc.player2;
    }

    let mut fin = FinishGame { player1: w1, player2: w2 };
    assert_eq!(finish_game(&mut fin, &mut game, P2), Ok(()));
    assert_eq!(game.pot_lamports, 0);
}

#[test]
fn turn_alternates_strictly_from_player_one() {
    let mut init = InitGame { player1: Wallet { owner: P1, lamports: 1000 } };
    let mut game = init_game(&mut init, 2, 10, 1, P2, [0u8; 64], 0).expect("creation is funded");
    assert_eq!(game.current_turn, 1);

    let mut join = JoinGame { player2: Wallet { owner: P2, lamports: 1000 } };
    assert_eq!(join_game(&mut join, &mut game, 0), Ok(()));
    assert_eq!(game.current_turn, 1);

    let mut w1 = init.player1;
    let mut w2 = join.player2;
    let callers = [P1, P2, P1, P2];
    let expected_turns = [2u8, 1, 2, 1];
    for i in 0..callers.len() {
        let mut acc = MakeMove { player1: w1, player2: w2 };
        assert_eq!(make_move(&mut acc, &mut game, callers[i], [0u8; 64], i as u64), Ok(()));
        assert_eq!(game.move_index, (i + 1) as u64);
        assert_eq!(game.current_turn, expected_turns[i]);
        w1 = acc.player1;
        w2 = acc.player2;
    }
}

#[test]
fn finished_session_rejects_every_operation_unchanged() {
    let mut init = InitGame { player1: Wallet { owner: P1, lamports: 1000 } };
    let mut game = init_game(&mut init, 3, 100, 5, P2, [0u8; 64], 0).expect("creation is funded");
    let mut join = JoinGame { player2: Wallet { owner: P2, lamports: 1000 } };
    assert_eq!(join_game(&mut join, &mut game, 0), Ok(()));
    let mut fin = FinishGame { player1: init.player1, player2: join.player2 };
    assert_eq!(finish_game(&mut fin, &mut game, P1), Ok(()));
    assert_eq!(game.status, GameStatus::Finished);

    let frozen = game.clone();

    let mut join2 = JoinGame { player2: Wallet { owner: P2, lamports: 1000 } };
    assert_eq!(
        join_game(&mut join2, &mut game, 9),
        Err(ErrorCode::GameNotWaitingForPlayer2)
    );
    assert_eq!(game, frozen);

    let mut mv = MakeMove { player1: fin.player1, player2: fin.player2 };
    assert_eq!(
        make_move(&mut mv, &mut game, P1, [1u8; 64], 9),
        Err(ErrorCode::GameNotActive)
    );
    assert_eq!(game, frozen);

    let mut fin2 = FinishGame { player1: fin.player1, player2: fin.player2 };
    assert_eq!(finish_game(&mut fin2, &mut game, P1), Err(ErrorCode::GameNotActive));
    assert_eq!(game, frozen);

    let mut cancel = CancelBeforeJoin { player1: fin.player1 };
    assert_eq!(
        cancel_before_join(&mut cancel, &mut game),
        Err(ErrorCode::GameNotWaitingForPlayer2)
    );
    assert_eq!(game, frozen);

    let mut refund = ForceRefund { player1: fin.player1, player2: fin.player2 };
    assert_eq!(
        force_refund(&mut refund, &mut game, 1_000_000),
        Err(ErrorCode::GameNotActive)
    );
    assert_eq!(game, frozen);

    assert_eq!(manual_refund(&mut refund, &mut game), Err(ErrorCode::GameNotActive));
    assert_eq!(game, frozen);
}

#[test]
fn manual_refund_returns_each_side_its_contributions() {
    let mut init = InitGame { player1: Wallet { owner: P1, lamports: 500 } };
    let mut game = init_game(&mut init, 4, 200, 25, P2, [0u8; 64], 0).expect("creation is funded");
    let mut join = JoinGame { player2: Wallet { owner: P2, lamports: 300 } };
    assert_eq!(join_game(&mut join, &mut game, 0), Ok(()));

    let mut w1 = init.player1;
    let mut w2 = join.player2;
    for (i, caller) in [P1, P2].iter().enumerate() {
        let mut acc = MakeMove { player1: w1, player2: w2 };
        assert_eq!(make_move(&mut acc, &mut game, *caller, [5u8; 64], i as u64), Ok(()));
        w1 = acc.player1;
        w2 = acc.player2;
    }
    assert_eq!(game.pot_lamports, 450);

    let pot_before = game.pot_lamports;
    let mut refund = ForceRefund { player1: w1, player2: w2 };
    assert_eq!(manual_refund(&mut refund, &mut game), Ok(()));
    let paid_out =
        (refund.player1.lamports - w1.lamports) + (refund.player2.lamports - w2.lamports);
    assert_eq!(paid_out, pot_before);
    assert_eq!(refund.player1.lamports, 500);
    assert_eq!(refund.player2.lamports, 300);
    assert_eq!(game.status, GameStatus::Finished);
    assert_eq!(game.winner, None);
}
