use vstd::prelude::*;

use crate::funds::can_payout;
use crate::funds::payout;
use crate::game::escrow_consistent;
use crate::game::status_rank;
use crate::game::status_transition_allowed;
use crate::game::unset_id;
use crate::game::CoinflipError;
use crate::game::EscrowVault;
use crate::game::Game;
use crate::game::GameStatus;

verus! {

/// The full pot of a game: two stakes. Exact only where `pot_fits` holds;
/// where it does not, the settlement operations refuse with InvalidStake
/// rather than pay a clamped amount.
pub open spec fn full_pot(stake: u64) -> u64 {
    (2 * stake) as u64
}

/// Whether the pot of two stakes fits a u64 balance at all.
pub open spec fn pot_fits(stake: u64) -> bool {
    2 * stake <= u64::MAX
}

/// Why `forfeit_if_timeout` fails, or None when it succeeds.
pub open spec fn forfeit_err(
    g: Game,
    v: EscrowVault,
    creator_balance: u64,
    joiner_balance: u64,
    now_slot: u64,
) -> Option<CoinflipError> {
    if g.status != GameStatus::Joined && g.status != GameStatus::Revealing {
        Some(CoinflipError::BadStatus)
    } else if now_slot < g.reveal_deadline_slot {
        Some(CoinflipError::TooEarly)
    } else if g.joiner@ == unset_id() {
        Some(CoinflipError::NotReady)
    } else if g.revealed_a && !g.revealed_b {
        if !pot_fits(g.stake_lamports) || !can_payout(
            v,
            creator_balance,
            full_pot(g.stake_lamports),
        ) {
            Some(CoinflipError::InvalidStake)
        } else {
            None
        }
    } else if g.revealed_b && !g.revealed_a {
        if !pot_fits(g.stake_lamports) || !can_payout(
            v,
            joiner_balance,
            full_pot(g.stake_lamports),
        ) {
            Some(CoinflipError::InvalidStake)
        } else {
            None
        }
    } else {
        if !(v.balance >= 2 * g.stake_lamports && creator_balance + g.stake_lamports <= u64::MAX
            && joiner_balance + g.stake_lamports <= u64::MAX) {
            Some(CoinflipError::InvalidStake)
        } else {
            None
        }
    }
}

/// Resolve a stalled game once the reveal deadline has passed: a party that
/// revealed alone takes the full pot; if neither revealed, each party is
/// refunded its own stake in two separate transfers. Either way the game is
/// Finalized and the vault is empty. Every transfer happens whole or the
/// operation fails with nothing moved.
pub fn forfeit_if_timeout(
    game: &mut Game,
    vault: &mut EscrowVault,
    creator_balance: &mut u64,
    joiner_balance: &mut u64,
    now_slot: u64,
) -> (r: Result<(), CoinflipError>)
    requires
        old(vault).conserves_funds(),
    ensures
        final(vault).conserves_funds(),
        status_rank(old(game).status) <= status_rank(final(game).status),
        status_transition_allowed(old(game).status, final(game).status),
        old(game).wf() ==> final(game).wf(),
        escrow_consistent(*old(game), *old(vault)) ==> escrow_consistent(
            *final(game),
            *final(vault),
        ),
        match r {
            Ok(()) => {
                &&& forfeit_err(
                    *old(game),
                    *old(vault),
                    *old(creator_balance),
                    *old(joiner_balance),
                    now_slot,
                ) is None
                &&& final(vault).total_deposited == old(vault).total_deposited
                &&& if old(game).revealed_a && !old(game).revealed_b {
                    &&& *final(game) == (Game {
                        winner: old(game).creator,
                        status: GameStatus::Finalized,
                        ..*old(game)
                    })
                    &&& *final(creator_balance) == *old(creator_balance) + full_pot(
                        old(game).stake_lamports,
                    )
                    &&& *final(joiner_balance) == *old(joiner_balance)
                    &&& final(vault).balance == old(vault).balance - full_pot(
                        old(game).stake_lamports,
                    )
                    &&& final(vault).total_paid_out == old(vault).total_paid_out + full_pot(
                        old(game).stake_lamports,
                    )
                } else if old(game).revealed_b && !old(game).revealed_a {
                    &&& *final(game) == (Game {
                        winner: old(game).joiner,
                        status: GameStatus::Finalized,
                        ..*old(game)
                    })
                    &&& *final(joiner_balance) == *old(joiner_balance) + full_pot(
                        old(game).stake_lamports,
                    )
                    &&& *final(creator_balance) == *old(creator_balance)
                    &&& final(vault).balance == old(vault).balance - full_pot(
                        old(game).stake_lamports,
                    )
                    &&& final(vault).total_paid_out == old(vault).total_paid_out + full_pot(
                        old(game).stake_lamports,
                    )
                } else {
                    &&& *final(game) == (Game { status: GameStatus::Finalized, ..*old(game) })
                    &&& *final(creator_balance) == *old(creator_balance) + old(
                        game,
                    ).stake_lamports
                    &&& *final(joiner_balance) == *old(joiner_balance) + old(game).stake_lamports
                    &&& final(vault).balance == old(vault).balance - 2 * old(game).stake_lamports
                    &&& final(vault).total_paid_out == old(vault).total_paid_out + 2 * old(
                        game,
                    ).stake_lamports
                }
            },
            Err(e) => {
                &&& forfeit_err(
                    *old(game),
                    *old(vault),
                    *old(creator_balance),
                    *old(joiner_balance),
                    now_slot,
                ) == Some(e)
                &&& *final(game) == *old(game)
                &&& *final(vault) == *old(vault)
                &&& *final(creator_balance) == *old(creator_balance)
                &&& *final(joiner_balance) == *old(joiner_balance)
            },
        },
{
    if !(game.status == GameStatus::Joined || game.status == GameStatus::Revealing) {
        return Err(CoinflipError::BadStatus);
    }
    if now_slot < game.reveal_deadline_slot {
        return Err(CoinflipError::TooEarly);
    }
    if crate::game::is_unset_id(&game.joiner) {
        return Err(CoinflipError::NotReady);
    }
    if game.revealed_a && !game.revealed_b {
        if game.stake_lamports > u64::MAX / 2 {
            return Err(CoinflipError::InvalidStake);
        }
        let total: u64 = 2 * game.stake_lamports;
        match payout(vault, creator_balance, total) {
            Ok(()) => (),
            Err(e) => {
                return Err(e);
            },
        }
        game.winner = game.creator;
        game.status = GameStatus::Finalized;
    } else if game.revealed_b && !game.revealed_a {
        if game.stake_lamports > u64::MAX / 2 {
            return Err(CoinflipError::InvalidStake);
        }
        let total: u64 = 2 * game.stake_lamports;
        match payout(vault, joiner_balance, total) {
            Ok(()) => (),
            Err(e) => {
                return Err(e);
            },
        }
        game.winner = game.joiner;
        game.status = GameStatus::Finalized;
    } else {
        // Two separate refunds, one per party; both are validated up front
        // so that a failure moves nothing at all.
        let stake = game.stake_lamports;
        if vault.balance < stake || vault.balance - stake < stake {
            return Err(CoinflipError::InvalidStake);
        }
        if stake > u64::MAX - *creator_balance {
            return Err(CoinflipError::InvalidStake);
        }
        if stake > u64::MAX - *joiner_balance {
            return Err(CoinflipError::InvalidStake);
        }
        match payout(vault, creator_balance, stake) {
            Ok(()) => (),
            Err(_) => {
                proof {
                    assert(false);
                }
                return Err(CoinflipError::InvalidStake);
            },
        }
        match payout(vault, joiner_balance, stake) {
            Ok(()) => (),
            Err(_) => {
                proof {
                    assert(false);
                }
                return Err(CoinflipError::InvalidStake);
            },
        }
        game.status = GameStatus::Finalized;
    }
    Ok(())
}

/// Why `finalize` fails, or None when it succeeds.
pub open spec fn finalize_err(
    g: Game,
    v: EscrowVault,
    creator_balance: u64,
    joiner_balance: u64,
) -> Option<CoinflipError> {
    if g.status != GameStatus::ReadyToFinalize {
        Some(CoinflipError::BadStatus)
    } else if g.winner@ == g.creator@ {
        if !pot_fits(g.stake_lamports) || !can_payout(
            v,
            creator_balance,
            full_pot(g.stake_lamports),
        ) {
            Some(CoinflipError::InvalidStake)
        } else {
            None
        }
    } else if g.winner@ == g.joiner@ {
        if !pot_fits(g.stake_lamports) || !can_payout(
            v,
            joiner_balance,
            full_pot(g.stake_lamports),
        ) {
            Some(CoinflipError::InvalidStake)
        } else {
            None
        }
    } else {
        Some(CoinflipError::NotReady)
    }
}

/// Pay the full pot to the computed winner and close the game.
pub fn finalize(
    game: &mut Game,
    vault: &mut EscrowVault,
    creator_balance: &mut u64,
    joiner_balance: &mut u64,
) -> (r: Result<(), CoinflipError>)
    requires
        old(vault).conserves_funds(),
    ensures
        final(vault).conserves_funds(),
        status_rank(old(game).status) <= status_rank(final(game).status),
        status_transition_allowed(old(game).status, final(game).status),
        old(game).wf() ==> final(game).wf(),
        escrow_consistent(*old(game), *old(vault)) ==> escrow_consistent(
            *final(game),
            *final(vault),
        ),
        match r {
            Ok(()) => {
                &&& finalize_err(
                    *old(game),
                    *old(vault),
                    *old(creator_balance),
                    *old(joiner_balance),
                ) is None
                &&& *final(game) == (Game { status: GameStatus::Finalized, ..*old(game) })
                &&& final(vault).balance == old(vault).balance - full_pot(old(game).stake_lamports)
                &&& final(vault).total_paid_out == old(vault).total_paid_out + full_pot(
                    old(game).stake_lamports,
                )
                &&& final(vault).total_deposited == old(vault).total_deposited
                &&& if old(game).winner@ == old(game).creator@ {
                    *final(creator_balance) == *old(creator_balance) + full_pot(
                        old(game).stake_lamports,
                    ) && *final(joiner_balance) == *old(joiner_balance)
                } else {
                    *final(joiner_balance) == *old(joiner_balance) + full_pot(
                        old(game).stake_lamports,
                    ) && *final(creator_balance) == *old(creator_balance)
                }
            },
            Err(e) => {
                &&& finalize_err(
                    *old(game),
                    *old(vault),
                    *old(creator_balance),
                    *old(joiner_balance),
                ) == Some(e)
                &&& *final(game) == *old(game)
                &&& *final(vault) == *old(vault)
                &&& *final(creator_balance) == *old(creator_balance)
                &&& *final(joiner_balance) == *old(joiner_balance)
            },
        },
{
    if !(game.status == GameStatus::ReadyToFinalize) {
        return Err(CoinflipError::BadStatus);
    }
    if crate::hashing::bytes32_eq(&game.winner, &game.creator) {
        if game.stake_lamports > u64::MAX / 2 {
            return Err(CoinflipError::InvalidStake);
        }
        let total: u64 = 2 * game.stake_lamports;
        match payout(vault, creator_balance, total) {
            Ok(()) => (),
            Err(e) => {
                return Err(e);
            },
        }
    } else if crate::hashing::bytes32_eq(&game.winner, &game.joiner) {
        if game.stake_lamports > u64::MAX / 2 {
            return Err(CoinflipError::InvalidStake);
        }
        let total: u64 = 2 * game.stake_lamports;
        match payout(vault, joiner_balance, total) {
            Ok(()) => (),
            Err(e) => {
                return Err(e);
            },
        }
    } else {
        return Err(CoinflipError::NotReady);
    }
    game.status = GameStatus::Finalized;
    Ok(())
}

} // verus!
