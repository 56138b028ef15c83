use vstd::prelude::*;

use crate::state::{turn_after, GameState};

verus! {

/// In every reachable session the pot equals the sum of both players'
/// deposits and both players' paid fees for as long as the session has not
/// finished, and the pot is zero once it has finished.
pub proof fn lemma_pot_partition(g: GameState)
    requires
        g.wf(),
    ensures
        g.status !is Finished ==> g.pot_lamports == g.player1_deposit + g.player2_deposit
            + g.player1_fees_paid + g.player2_fees_paid,
        g.status is Finished ==> g.pot_lamports == 0,
{
}

/// Turns alternate strictly from player 1: in every reachable session that
/// has not finished, after an even number of completed moves it is player
/// 1's turn, after an odd number player 2's.
pub proof fn lemma_turn_alternation(g: GameState)
    requires
        g.wf(),
        g.status !is Finished,
    ensures
        g.current_turn == turn_after(g.move_index),
        g.move_index % 2 == 0 ==> g.current_turn == 1,
        g.move_index % 2 != 0 ==> g.current_turn == 2,
{
}

/// The proportional refund is a partition of the pot, not a re-derivation of
/// fairness: in every reachable active session the two players' shares
/// (deposit plus fees each) add up to exactly the pot, so paying each share
/// pays out the whole pot and no share can exceed it.
pub proof fn lemma_refund_partition(g: GameState)
    requires
        g.wf(),
        g.status is Active,
    ensures
        g.player1_share() + g.player2_share() == g.pot_lamports,
        g.player1_share() <= g.pot_lamports,
        g.player2_share() <= g.pot_lamports,
{
}

} // verus!
