use vstd::prelude::*;

use crate::funds::can_deposit;
use crate::funds::deposit_to_vault;
use crate::game::escrow_consistent;
use crate::game::status_rank;
use crate::game::status_transition_allowed;
use crate::game::unset_id;
use crate::game::unset_id_bytes;
use crate::game::CoinflipError;
use crate::game::EscrowVault;
use crate::game::Game;
use crate::game::GameStatus;
use crate::game::PartyId;

verus! {

/// Addition on u64 that pins to u64::MAX instead of wrapping; used for the
/// reveal deadline so a huge offset cannot wrap to a deadline in the past.
pub open spec fn sat_add_u64(a: u64, b: u64) -> u64 {
    if a + b > u64::MAX {
        u64::MAX
    } else {
        (a + b) as u64
    }
}

/// Why `create_game` fails, or None when it succeeds.
pub open spec fn create_game_err(creator_balance: u64, stake_lamports: u64) -> Option<
    CoinflipError,
> {
    if stake_lamports == 0 {
        Some(CoinflipError::InvalidStake)
    } else if creator_balance < stake_lamports {
        Some(CoinflipError::InvalidStake)
    } else {
        None
    }
}

/// Open a new game: record the creator's commitment, fix the stake, set the
/// reveal deadline, and move the creator's stake into a fresh escrow vault.
pub fn create_game(
    creator: PartyId,
    creator_balance: &mut u64,
    stake_lamports: u64,
    commit_a: [u8; 32],
    reveal_deadline_slots: u64,
    now_slot: u64,
) -> (r: Result<(Game, EscrowVault), CoinflipError>)
    ensures
        match r {
            Ok(p) => {
                let g = p.0;
                let v = p.1;
                &&& create_game_err(*old(creator_balance), stake_lamports) is None
                &&& *final(creator_balance) == *old(creator_balance) - stake_lamports
                &&& g.creator == creator
                &&& g.joiner@ == unset_id()
                &&& g.stake_lamports == stake_lamports
                &&& g.commit_a == commit_a
                &&& g.commit_b@ == unset_id()
                &&& !g.revealed_a
                &&& !g.revealed_b
                &&& g.choice_a == 0
                &&& g.choice_b == 0
                &&& g.secret_a@ == unset_id()
                &&& g.secret_b@ == unset_id()
                &&& g.created_slot == now_slot
                &&& g.reveal_deadline_slot == sat_add_u64(now_slot, reveal_deadline_slots)
                &&& g.coin == 0
                &&& g.winner@ == unset_id()
                &&& g.status == GameStatus::Created
                &&& g.wf()
                &&& v.balance == stake_lamports
                &&& v.total_deposited == stake_lamports
                &&& v.total_paid_out == 0
                &&& escrow_consistent(g, v)
            },
            Err(e) => create_game_err(*old(creator_balance), stake_lamports) == Some(e)
                && *final(creator_balance) == *old(creator_balance),
        },
{
    if stake_lamports == 0 {
        return Err(CoinflipError::InvalidStake);
    }
    let mut vault = EscrowVault { balance: 0, total_deposited: 0, total_paid_out: 0 };
    match deposit_to_vault(creator_balance, &mut vault, stake_lamports) {
        Ok(()) => (),
        Err(e) => {
            return Err(e);
        },
    }
    let reveal_deadline_slot: u64 = if reveal_deadline_slots > u64::MAX - now_slot {
        u64::MAX
    } else {
        now_slot + reveal_deadline_slots
    };
    let game = Game {
        creator,
        joiner: unset_id_bytes(),
        stake_lamports,
        commit_a,
        commit_b: unset_id_bytes(),
        revealed_a: false,
        revealed_b: false,
        choice_a: 0,
        choice_b: 0,
        secret_a: unset_id_bytes(),
        secret_b: unset_id_bytes(),
        created_slot: now_slot,
        reveal_deadline_slot,
        coin: 0,
        winner: unset_id_bytes(),
        status: GameStatus::Created,
    };
    Ok((game, vault))
}

/// Why `join_game` fails, or None when it succeeds.
pub open spec fn join_game_err(g: Game, joiner_balance: u64, v: EscrowVault) -> Option<
    CoinflipError,
> {
    if g.status != GameStatus::Created {
        Some(CoinflipError::BadStatus)
    } else if g.joiner@ != unset_id() {
        Some(CoinflipError::AlreadyJoined)
    } else if !can_deposit(joiner_balance, v, g.stake_lamports) {
        Some(CoinflipError::InvalidStake)
    } else {
        None
    }
}

/// Take the second seat in a game: record the joiner's identity and
/// commitment and move a matching stake into the vault.
pub fn join_game(
    game: &mut Game,
    vault: &mut EscrowVault,
    joiner: PartyId,
    joiner_balance: &mut u64,
    commit_b: [u8; 32],
) -> (r: Result<(), CoinflipError>)
    requires
        old(vault).conserves_funds(),
    ensures
        final(vault).conserves_funds(),
        status_rank(old(game).status) <= status_rank(final(game).status),
        status_transition_allowed(old(game).status, final(game).status),
        old(game).wf() ==> final(game).wf(),
        escrow_consistent(*old(game), *old(vault)) ==> escrow_consistent(
            *final(game),
            *final(vault),
        ),
        match r {
            Ok(()) => {
                &&& join_game_err(*old(game), *old(joiner_balance), *old(vault)) is None
                &&& *final(game) == (Game {
                    joiner,
                    commit_b,
                    status: GameStatus::Joined,
                    ..*old(game)
                })
                &&& *final(joiner_balance) == *old(joiner_balance) - old(game).stake_lamports
                &&& final(vault).balance == old(vault).balance + old(game).stake_lamports
                &&& final(vault).total_deposited == old(vault).total_deposited + old(
                    game,
                ).stake_lamports
                &&& final(vault).total_paid_out == old(vault).total_paid_out
            },
            Err(e) => {
                &&& join_game_err(*old(game), *old(joiner_balance), *old(vault)) == Some(e)
                &&& *final(game) == *old(game)
                &&& *final(vault) == *old(vault)
                &&& *final(joiner_balance) == *old(joiner_balance)
            },
        },
{
    if !(game.status == GameStatus::Created) {
        return Err(CoinflipError::BadStatus);
    }
    if !crate::game::is_unset_id(&game.joiner) {
        return Err(CoinflipError::AlreadyJoined);
    }
    match deposit_to_vault(joiner_balance, vault, game.stake_lamports) {
        Ok(()) => (),
        Err(e) => {
            return Err(e);
        },
    }
    game.joiner = joiner;
    game.commit_b = commit_b;
    game.status = GameStatus::Joined;
    Ok(())
}

} // verus!
