use vstd::prelude::*;

use crate::game::escrow_consistent;
use crate::game::status_rank;
use crate::game::status_transition_allowed;
use crate::game::EscrowVault;
use crate::game::CoinflipError;
use crate::game::Game;
use crate::game::GameStatus;
use crate::game::PartyId;
use crate::hashing::bytes32_eq;
use crate::hashing::commit_hash;
use crate::hashing::push_bytes32;
use crate::hashing::sha256;
use crate::hashing::sha256_of;
use crate::hashing::spec_commit_hash;

verus! {

/// The bytes the outcome is derived from: both secrets, then the game's own
/// address, so the result is bound to both parties and to this game.
pub open spec fn outcome_input(secret_a: Seq<u8>, secret_b: Seq<u8>, game_id: Seq<u8>) -> Seq<u8> {
    secret_a + secret_b + game_id
}

/// The outcome bit: the low bit of the first digest byte.
pub open spec fn outcome_coin(secret_a: Seq<u8>, secret_b: Seq<u8>, game_id: Seq<u8>) -> u8 {
    (sha256_of(outcome_input(secret_a, secret_b, game_id))[0] % 2) as u8
}

/// The winner rule: the creator wins exactly when its revealed choice
/// equals the coin; otherwise the joiner wins. The joiner's choice only
/// authenticates its reveal and does not enter this rule.
pub open spec fn outcome_winner(g: Game, coin: u8) -> PartyId {
    if g.choice_a == coin {
        g.creator
    } else {
        g.joiner
    }
}

/// The record after the outcome has been computed from both secrets.
pub open spec fn with_outcome(g: Game, game_id: [u8; 32]) -> Game {
    let coin = outcome_coin(g.secret_a@, g.secret_b@, game_id@);
    Game {
        coin,
        winner: outcome_winner(g, coin),
        status: GameStatus::ReadyToFinalize,
        ..g
    }
}

/// The record after a successful creator reveal: the outcome is computed
/// as well exactly when the joiner had already revealed.
pub open spec fn creator_revealed_game(g: Game, game_id: [u8; 32], choice: u8, secret: [u8; 32]) -> Game {
    let g1 = Game {
        choice_a: choice,
        secret_a: secret,
        revealed_a: true,
        status: GameStatus::Revealing,
        ..g
    };
    if g.revealed_b {
        with_outcome(g1, game_id)
    } else {
        g1
    }
}

/// The record after a successful joiner reveal, mirrored.
pub open spec fn joiner_revealed_game(g: Game, game_id: [u8; 32], choice: u8, secret: [u8; 32]) -> Game {
    let g1 = Game {
        choice_b: choice,
        secret_b: secret,
        revealed_b: true,
        status: GameStatus::Revealing,
        ..g
    };
    if g.revealed_a {
        with_outcome(g1, game_id)
    } else {
        g1
    }
}

/// Why `reveal_creator` fails, or None when it succeeds.
pub open spec fn reveal_creator_err(g: Game, signer: PartyId, choice: u8, secret: [u8; 32]) -> Option<CoinflipError> {
    if g.status != GameStatus::Joined && g.status != GameStatus::Revealing {
        Some(CoinflipError::BadStatus)
    } else if signer@ != g.creator@ {
        Some(CoinflipError::NotPlayer)
    } else if choice > 1 {
        Some(CoinflipError::InvalidChoice)
    } else if g.revealed_a {
        Some(CoinflipError::AlreadyRevealed)
    } else if spec_commit_hash(choice, secret@) != g.commit_a@ {
        Some(CoinflipError::BadReveal)
    } else {
        None
    }
}

/// Why `reveal_joiner` fails, or None when it succeeds.
pub open spec fn reveal_joiner_err(g: Game, signer: PartyId, choice: u8, secret: [u8; 32]) -> Option<CoinflipError> {
    if g.status != GameStatus::Joined && g.status != GameStatus::Revealing {
        Some(CoinflipError::BadStatus)
    } else if signer@ != g.joiner@ {
        Some(CoinflipError::NotPlayer)
    } else if choice > 1 {
        Some(CoinflipError::InvalidChoice)
    } else if g.revealed_b {
        Some(CoinflipError::AlreadyRevealed)
    } else if spec_commit_hash(choice, secret@) != g.commit_b@ {
        Some(CoinflipError::BadReveal)
    } else {
        None
    }
}

/// Derive the outcome bit from both secrets and the game's address, and
/// pick the winner. Runs as the tail of whichever reveal completes second.
pub fn compute_outcome(game: &mut Game, game_id: &[u8; 32])
    ensures
        final(game).coin == outcome_coin(old(game).secret_a@, old(game).secret_b@, game_id@),
        final(game).winner == outcome_winner(*old(game), final(game).coin),
        *final(game) == (Game {
            coin: final(game).coin,
            winner: final(game).winner,
            ..*old(game)
        }),
{
    let mut data: Vec<u8> = Vec::new();
    push_bytes32(&mut data, &game.secret_a);
    push_bytes32(&mut data, &game.secret_b);
    push_bytes32(&mut data, game_id);
    proof {
        assert(data@ =~= outcome_input(game.secret_a@, game.secret_b@, game_id@));
    }
    let h = sha256(&data);
    game.coin = h[0] % 2;
    if game.choice_a == game.coin {
        game.winner = game.creator;
    } else {
        game.winner = game.joiner;
    }
}

/// The creator discloses its choice and secret; on a match with the stored
/// commitment the reveal is recorded, and if the joiner had already
/// revealed, the outcome is computed and the game becomes ReadyToFinalize.
pub fn reveal_creator(
    game: &mut Game,
    game_id: &[u8; 32],
    signer: PartyId,
    choice: u8,
    secret: [u8; 32],
) -> (r: Result<(), CoinflipError>)
    ensures
        status_rank(old(game).status) <= status_rank(final(game).status),
        status_transition_allowed(old(game).status, final(game).status),
        old(game).wf() ==> final(game).wf(),
        forall|v: EscrowVault| escrow_consistent(*old(game), v) ==> escrow_consistent(
            *final(game),
            v,
        ),
        match r {
            Ok(()) => reveal_creator_err(*old(game), signer, choice, secret) is None && *final(game)
                == creator_revealed_game(*old(game), *game_id, choice, secret),
            Err(e) => reveal_creator_err(*old(game), signer, choice, secret) == Some(e)
                && *final(game) == *old(game),
        },
{
    if !(game.status == GameStatus::Joined || game.status == GameStatus::Revealing) {
        return Err(CoinflipError::BadStatus);
    }
    if !bytes32_eq(&signer, &game.creator) {
        return Err(CoinflipError::NotPlayer);
    }
    if choice > 1 {
        return Err(CoinflipError::InvalidChoice);
    }
    if game.revealed_a {
        return Err(CoinflipError::AlreadyRevealed);
    }
    let expected = commit_hash(choice, &secret);
    if !bytes32_eq(&expected, &game.commit_a) {
        return Err(CoinflipError::BadReveal);
    }
    game.choice_a = choice;
    game.secret_a = secret;
    game.revealed_a = true;
    game.status = GameStatus::Revealing;
    if game.revealed_b {
        compute_outcome(game, game_id);
        game.status = GameStatus::ReadyToFinalize;
    }
    Ok(())
}

/// The joiner discloses its choice and secret, mirrored against the
/// joiner's commitment; its choice is used only for this authentication.
pub fn reveal_joiner(
    game: &mut Game,
    game_id: &[u8; 32],
    signer: PartyId,
    choice: u8,
    secret: [u8; 32],
) -> (r: Result<(), CoinflipError>)
    ensures
        status_rank(old(game).status) <= status_rank(final(game).status),
        status_transition_allowed(old(game).status, final(game).status),
        old(game).wf() ==> final(game).wf(),
        forall|v: EscrowVault| escrow_consistent(*old(game), v) ==> escrow_consistent(
            *final(game),
            v,
        ),
        match r {
            Ok(()) => reveal_joiner_err(*old(game), signer, choice, secret) is None && *final(game)
                == joiner_revealed_game(*old(game), *game_id, choice, secret),
            Err(e) => reveal_joiner_err(*old(game), signer, choice, secret) == Some(e)
                && *final(game) == *old(game),
        },
{
    if !(game.status == GameStatus::Joined || game.status == GameStatus::Revealing) {
        return Err(CoinflipError::BadStatus);
    }
    if !bytes32_eq(&signer, &game.joiner) {
        return Err(CoinflipError::NotPlayer);
    }
    if choice > 1 {
        return Err(CoinflipError::InvalidChoice);
    }
    if game.revealed_b {
        return Err(CoinflipError::AlreadyRevealed);
    }
    let expected = commit_hash(choice, &secret);
    if !bytes32_eq(&expected, &game.commit_b) {
        return Err(CoinflipError::BadReveal);
    }
    game.choice_b = choice;
    game.secret_b = secret;
    game.revealed_b = true;
    game.status = GameStatus::Revealing;
    if game.revealed_a {
        compute_outcome(game, game_id);
        game.status = GameStatus::ReadyToFinalize;
    }
    Ok(())
}

} // verus!
