use vstd::prelude::*;

use crate::commit_reveal::creator_revealed_game;
use crate::commit_reveal::joiner_revealed_game;
use crate::commit_reveal::reveal_creator_err;
use crate::commit_reveal::reveal_joiner_err;
use crate::game::escrow_consistent;
use crate::game::CoinflipError;
use crate::game::EscrowVault;
use crate::game::unset_id;
use crate::game::Game;
use crate::game::GameStatus;
use crate::hashing::spec_commit_hash;
use crate::settle::finalize_err;
use crate::settle::forfeit_err;
use crate::settle::full_pot;

verus! {

/// Fund conservation: in any consistent state, the vault balance plus the
/// total paid out equals the total deposited; once Finalized, the vault is
/// empty.
pub proof fn lemma_fund_conservation(g: Game, v: EscrowVault)
    requires
        escrow_consistent(g, v),
    ensures
        v.balance + v.total_paid_out == v.total_deposited,
        g.status == GameStatus::Finalized ==> v.balance == 0,
{
}

/// No recipient is ever credited beyond the pot: in any consistent state,
/// everything ever paid out for a game totals at most two stakes.
pub proof fn lemma_payout_bounded(g: Game, v: EscrowVault)
    requires
        escrow_consistent(g, v),
    ensures
        v.total_paid_out <= 2 * g.stake_lamports,
{
}

/// No double payout: Finalized is terminal, so once either settlement path
/// has paid, both `finalize` and `forfeit_if_timeout` refuse with BadStatus
/// and move no funds, whatever their other arguments are.
pub proof fn lemma_no_double_payout(
    g: Game,
    v: EscrowVault,
    creator_balance: u64,
    joiner_balance: u64,
    now_slot: u64,
)
    requires
        g.status == GameStatus::Finalized,
    ensures
        finalize_err(g, v, creator_balance, joiner_balance) == Some(CoinflipError::BadStatus),
        forfeit_err(g, v, creator_balance, joiner_balance, now_slot) == Some(
            CoinflipError::BadStatus,
        ),
{
}

/// Settlement is owed to the computed winner: a ReadyToFinalize game whose
/// vault is consistent accepts `finalize`, and the pot it then pays is
/// exactly two stakes — provided only that the winner's balance can take
/// the pot without overflowing, a machine limit.
pub proof fn lemma_finalize_owed(
    g: Game,
    v: EscrowVault,
    creator_balance: u64,
    joiner_balance: u64,
)
    requires
        g.status == GameStatus::ReadyToFinalize,
        g.winner@ == g.creator@ || g.winner@ == g.joiner@,
        escrow_consistent(g, v),
        g.winner@ == g.creator@ ==> creator_balance + 2 * g.stake_lamports <= u64::MAX,
        g.winner@ != g.creator@ ==> joiner_balance + 2 * g.stake_lamports <= u64::MAX,
    ensures
        finalize_err(g, v, creator_balance, joiner_balance) is None,
        full_pot(g.stake_lamports) == 2 * g.stake_lamports,
{
}

/// Forfeiture is owed to a sole revealer: past the deadline, with the
/// joiner present and exactly one party revealed, a consistent game
/// accepts `forfeit_if_timeout`, and the pot it then pays that party is
/// exactly two stakes — provided only that the recipient's balance can
/// take the pot without overflowing, a machine limit.
pub proof fn lemma_forfeit_sole_reveal_owed(
    g: Game,
    v: EscrowVault,
    creator_balance: u64,
    joiner_balance: u64,
    now_slot: u64,
)
    requires
        g.status == GameStatus::Joined || g.status == GameStatus::Revealing,
        now_slot >= g.reveal_deadline_slot,
        g.joiner@ != unset_id(),
        g.revealed_a != g.revealed_b,
        escrow_consistent(g, v),
        g.revealed_a ==> creator_balance + 2 * g.stake_lamports <= u64::MAX,
        g.revealed_b ==> joiner_balance + 2 * g.stake_lamports <= u64::MAX,
    ensures
        forfeit_err(g, v, creator_balance, joiner_balance, now_slot) is None,
        full_pot(g.stake_lamports) == 2 * g.stake_lamports,
{
}

/// Refunds are owed when nobody revealed: past the deadline, with the
/// joiner present and neither party revealed, a consistent game accepts
/// `forfeit_if_timeout`, which then refunds each party its own stake in
/// two separate transfers — provided only that each party's balance can
/// take its stake back without overflowing, a machine limit.
pub proof fn lemma_forfeit_no_reveal_owed(
    g: Game,
    v: EscrowVault,
    creator_balance: u64,
    joiner_balance: u64,
    now_slot: u64,
)
    requires
        g.status == GameStatus::Joined || g.status == GameStatus::Revealing,
        now_slot >= g.reveal_deadline_slot,
        g.joiner@ != unset_id(),
        !g.revealed_a,
        !g.revealed_b,
        escrow_consistent(g, v),
        creator_balance + g.stake_lamports <= u64::MAX,
        joiner_balance + g.stake_lamports <= u64::MAX,
    ensures
        forfeit_err(g, v, creator_balance, joiner_balance, now_slot) is None,
{
}

/// Outcome order-independence: from a Joined game, valid creator and joiner
/// reveals are accepted in either order, and the two orders end in the very
/// same record — in particular the same coin and the same winner.
pub proof fn lemma_reveal_order_independent(
    g: Game,
    game_id: [u8; 32],
    choice_a: u8,
    secret_a: [u8; 32],
    choice_b: u8,
    secret_b: [u8; 32],
)
    requires
        g.wf(),
        g.status == GameStatus::Joined,
        choice_a <= 1,
        choice_b <= 1,
        spec_commit_hash(choice_a, secret_a@) == g.commit_a@,
        spec_commit_hash(choice_b, secret_b@) == g.commit_b@,
    ensures
        reveal_creator_err(g, g.creator, choice_a, secret_a) is None,
        reveal_joiner_err(
            creator_revealed_game(g, game_id, choice_a, secret_a),
            g.joiner,
            choice_b,
            secret_b,
        ) is None,
        reveal_joiner_err(g, g.joiner, choice_b, secret_b) is None,
        reveal_creator_err(
            joiner_revealed_game(g, game_id, choice_b, secret_b),
            g.creator,
            choice_a,
            secret_a,
        ) is None,
        joiner_revealed_game(
            creator_revealed_game(g, game_id, choice_a, secret_a),
            game_id,
            choice_b,
            secret_b,
        ) == creator_revealed_game(
            joiner_revealed_game(g, game_id, choice_b, secret_b),
            game_id,
            choice_a,
            secret_a,
        ),
{
}

} // verus!
