use coinflip::create_game;
use coinflip::finalize;
use coinflip::forfeit_if_timeout;
use coinflip::join_game;
use coinflip::reveal_creator;
use coinflip::reveal_joiner;
use coinflip::CoinflipError;
use coinflip::EscrowVault;
use coinflip::Game;
use coinflip::GameStatus;

fn commit(choice: u8, secret: &[u8; 32]) -> [u8; 32] {
    coinflip::commit_hash(choice, secret)
}

fn fresh_joined() -> (Game, EscrowVault, [u8; 32], [u8; 32], [u8; 32]) {
    let creator = [1u8; 32];
    let joiner = [2u8; 32];
    let game_id = [9u8; 32];
    let mut cb: u64 = 1000;
    let mut jb: u64 = 1000;
    let (mut game, mut vault) =
        create_game(creator, &mut cb, 100, commit(0, &[3u8; 32]), 50, 10).unwrap();
    join_game(&mut game, &mut vault, joiner, &mut jb, commit(1, &[4u8; 32])).unwrap();
    (game, vault, creator, joiner, game_id)
}

#[test]
fn zero_stake_is_refused() {
    let mut cb: u64 = 1000;
    let r = create_game([1u8; 32], &mut cb, 0, [0u8; 32], 50, 10);
    assert_eq!(r.unwrap_err(), CoinflipError::InvalidStake);
    assert_eq!(cb, 1000);
}

#[test]
fn unfunded_creator_is_refused() {
    let mut cb: u64 = 99;
    let r = create_game([1u8; 32], &mut cb, 100, [0u8; 32], 50, 10);
    assert_eq!(r.unwrap_err(), CoinflipError::InvalidStake);
    assert_eq!(cb, 99);
}

#[test]
fn joining_twice_is_refused() {
    let (mut game, mut vault, _, _, _) = fresh_joined();
    let mut balance: u64 = 1000;
    let r = join_game(&mut game, &mut vault, [5u8; 32], &mut balance, [0u8; 32]);
    assert_eq!(r.unwrap_err(), CoinflipError::BadStatus);
    assert_eq!(balance, 1000);
    assert_eq!(game.joiner, [2u8; 32]);
}

#[test]
fn joining_a_created_game_that_somehow_has_a_joiner_is_refused() {
    let creator = [1u8; 32];
    let mut cb: u64 = 1000;
    let (mut game, mut vault) = create_game(creator, &mut cb, 100, [0u8; 32], 50, 10).unwrap();
    game.joiner = [6u8; 32];
    let mut balance: u64 = 1000;
    let r = join_game(&mut game, &mut vault, [5u8; 32], &mut balance, [0u8; 32]);
    assert_eq!(r.unwrap_err(), CoinflipError::AlreadyJoined);
    assert_eq!(game.joiner, [6u8; 32]);
}

#[test]
fn unfunded_joiner_is_refused() {
    let creator = [1u8; 32];
    let mut cb: u64 = 1000;
    let (mut game, mut vault) = create_game(creator, &mut cb, 100, [0u8; 32], 50, 10).unwrap();
    let mut balance: u64 = 10;
    let r = join_game(&mut game, &mut vault, [5u8; 32], &mut balance, [0u8; 32]);
    assert_eq!(r.unwrap_err(), CoinflipError::InvalidStake);
    assert_eq!(game.status, GameStatus::Created);
    assert_eq!(balance, 10);
}

#[test]
fn revealing_before_join_is_refused() {
    let creator = [1u8; 32];
    let secret = [3u8; 32];
    let mut cb: u64 = 1000;
    let (mut game, _) = create_game(creator, &mut cb, 100, commit(0, &secret), 50, 10).unwrap();
    let r = reveal_creator(&mut game, &[9u8; 32], creator, 0, secret);
    assert_eq!(r.unwrap_err(), CoinflipError::BadStatus);
    assert_eq!(game.status, GameStatus::Created);
}

#[test]
fn revealing_as_a_stranger_is_refused() {
    let (mut game, _, _, _, game_id) = fresh_joined();
    let r = reveal_creator(&mut game, &game_id, [7u8; 32], 0, [3u8; 32]);
    assert_eq!(r.unwrap_err(), CoinflipError::NotPlayer);
    // the joiner cannot use the creator's reveal either
    let r = reveal_creator(&mut game, &game_id, [2u8; 32], 0, [3u8; 32]);
    assert_eq!(r.unwrap_err(), CoinflipError::NotPlayer);
    let r = reveal_joiner(&mut game, &game_id, [1u8; 32], 1, [4u8; 32]);
    assert_eq!(r.unwrap_err(), CoinflipError::NotPlayer);
}

#[test]
fn a_choice_outside_zero_or_one_is_refused() {
    let (mut game, _, creator, _, game_id) = fresh_joined();
    let r = reveal_creator(&mut game, &game_id, creator, 2, [3u8; 32]);
    assert_eq!(r.unwrap_err(), CoinflipError::InvalidChoice);
    assert_eq!(game.status, GameStatus::Joined);
}

#[test]
fn forfeiting_before_the_deadline_is_refused() {
    let (mut game, mut vault, _, _, _) = fresh_joined();
    let mut cb: u64 = 0;
    let mut jb: u64 = 0;
    // deadline is created_slot 10 + offset 50
    let r = forfeit_if_timeout(&mut game, &mut vault, &mut cb, &mut jb, 59);
    assert_eq!(r.unwrap_err(), CoinflipError::TooEarly);
    assert_eq!(game.status, GameStatus::Joined);
    assert_eq!(vault.balance, 200);
    let r = forfeit_if_timeout(&mut game, &mut vault, &mut cb, &mut jb, 60);
    assert_eq!(r, Ok(()));
}

#[test]
fn forfeiting_a_created_game_is_refused() {
    let mut cb: u64 = 1000;
    let (mut game, mut vault) = create_game([1u8; 32], &mut cb, 100, [0u8; 32], 50, 10).unwrap();
    let mut a: u64 = 0;
    let mut b: u64 = 0;
    let r = forfeit_if_timeout(&mut game, &mut vault, &mut a, &mut b, 1000);
    assert_eq!(r.unwrap_err(), CoinflipError::BadStatus);
}

#[test]
fn forfeiting_without_a_joiner_is_refused() {
    let (mut game, mut vault, _, _, _) = fresh_joined();
    game.joiner = [0u8; 32];
    let mut a: u64 = 0;
    let mut b: u64 = 0;
    let r = forfeit_if_timeout(&mut game, &mut vault, &mut a, &mut b, 1000);
    assert_eq!(r.unwrap_err(), CoinflipError::NotReady);
    assert_eq!(game.status, GameStatus::Joined);
}

#[test]
fn finalizing_before_both_reveals_is_refused() {
    let (mut game, mut vault, _, _, _) = fresh_joined();
    let mut a: u64 = 0;
    let mut b: u64 = 0;
    let r = finalize(&mut game, &mut vault, &mut a, &mut b);
    assert_eq!(r.unwrap_err(), CoinflipError::BadStatus);
    assert_eq!(vault.balance, 200);
}

#[test]
fn finalizing_with_a_winner_that_is_neither_party_is_refused() {
    let (mut game, mut vault, _, _, _) = fresh_joined();
    game.status = GameStatus::ReadyToFinalize;
    game.winner = [8u8; 32];
    let mut a: u64 = 0;
    let mut b: u64 = 0;
    let r = finalize(&mut game, &mut vault, &mut a, &mut b);
    assert_eq!(r.unwrap_err(), CoinflipError::NotReady);
    assert_eq!(vault.balance, 200);
}

#[test]
fn a_payout_that_would_overflow_the_recipient_moves_nothing() {
    let (mut game, mut vault, creator, joiner, game_id) = fresh_joined();
    reveal_creator(&mut game, &game_id, creator, 0, [3u8; 32]).unwrap();
    reveal_joiner(&mut game, &game_id, joiner, 1, [4u8; 32]).unwrap();
    let mut a: u64 = u64::MAX;
    let mut b: u64 = u64::MAX;
    let r = finalize(&mut game, &mut vault, &mut a, &mut b);
    assert_eq!(r.unwrap_err(), CoinflipError::InvalidStake);
    assert_eq!(game.status, GameStatus::ReadyToFinalize);
    assert_eq!(vault.balance, 200);
    assert_eq!(a, u64::MAX);
    assert_eq!(b, u64::MAX);
}

#[test]
fn a_refund_that_would_overflow_either_party_moves_nothing() {
    let (mut game, mut vault, _, _, _) = fresh_joined();
    let mut a: u64 = 0;
    let mut b: u64 = u64::MAX;
    let r = forfeit_if_timeout(&mut game, &mut vault, &mut a, &mut b, 60);
    assert_eq!(r.unwrap_err(), CoinflipError::InvalidStake);
    assert_eq!(game.status, GameStatus::Joined);
    assert_eq!(vault.balance, 200);
    assert_eq!(a, 0);
    assert_eq!(b, u64::MAX);
}

#[test]
fn a_huge_deadline_offset_pins_to_the_largest_slot() {
    let mut cb: u64 = 1000;
    let (game, _) = create_game([1u8; 32], &mut cb, 100, [0u8; 32], u64::MAX, 10).unwrap();
    assert_eq!(game.created_slot, 10);
    assert_eq!(game.reveal_deadline_slot, u64::MAX);
}

#[test]
fn a_stake_too_large_to_double_fails_at_join() {
    let stake = u64::MAX / 2 + 1;
    let mut cb: u64 = u64::MAX;
    let (mut game, mut vault) = create_game([1u8; 32], &mut cb, stake, [0u8; 32], 50, 10).unwrap();
    let mut jb: u64 = u64::MAX;
    let r = join_game(&mut game, &mut vault, [2u8; 32], &mut jb, [0u8; 32]);
    assert_eq!(r.unwrap_err(), CoinflipError::InvalidStake);
    assert_eq!(game.status, GameStatus::Created);
    assert_eq!(jb, u64::MAX);
    assert_eq!(vault.balance, stake);
}

#[test]
fn forfeiting_twice_is_refused_and_pays_nothing_again() {
    let (mut game, mut vault, _, _, _) = fresh_joined();
    let mut a: u64 = 0;
    let mut b: u64 = 0;
    forfeit_if_timeout(&mut game, &mut vault, &mut a, &mut b, 60).unwrap();
    assert_eq!((a, b), (100, 100));
    let r = forfeit_if_timeout(&mut game, &mut vault, &mut a, &mut b, 60);
    assert_eq!(r.unwrap_err(), CoinflipError::BadStatus);
    assert_eq!((a, b), (100, 100));
    assert_eq!(vault.total_paid_out, 200);
}

fn handmade_game(stake: u64, status: GameStatus) -> Game {
    Game {
        creator: [1u8; 32],
        joiner: [2u8; 32],
        stake_lamports: stake,
        commit_a: [0u8; 32],
        commit_b: [0u8; 32],
        revealed_a: false,
        revealed_b: false,
        choice_a: 0,
        choice_b: 0,
        secret_a: [0u8; 32],
        secret_b: [0u8; 32],
        created_slot: 0,
        reveal_deadline_slot: 0,
        coin: 0,
        winner: [0u8; 32],
        status,
    }
}

#[test]
fn a_pot_that_cannot_be_doubled_fails_at_finalize() {
    let stake = u64::MAX / 2 + 1;
    let mut game = handmade_game(stake, GameStatus::ReadyToFinalize);
    game.revealed_a = true;
    game.revealed_b = true;
    game.winner = game.creator;
    let mut vault = EscrowVault { balance: u64::MAX, total_deposited: u64::MAX, total_paid_out: 0 };
    let mut a: u64 = 0;
    let mut b: u64 = 0;
    let r = finalize(&mut game, &mut vault, &mut a, &mut b);
    assert_eq!(r.unwrap_err(), CoinflipError::InvalidStake);
    assert_eq!(game.status, GameStatus::ReadyToFinalize);
    assert_eq!(vault.balance, u64::MAX);
    assert_eq!((a, b), (0, 0));
}

#[test]
fn a_pot_that_cannot_be_doubled_fails_at_forfeit() {
    let stake = u64::MAX / 2 + 1;
    let mut game = handmade_game(stake, GameStatus::Revealing);
    game.revealed_a = true;
    let mut vault = EscrowVault { balance: u64::MAX, total_deposited: u64::MAX, total_paid_out: 0 };
    let mut a: u64 = 0;
    let mut b: u64 = 0;
    let r = forfeit_if_timeout(&mut game, &mut vault, &mut a, &mut b, 0);
    assert_eq!(r.unwrap_err(), CoinflipError::InvalidStake);
    assert_eq!(game.status, GameStatus::Revealing);
    assert_eq!(vault.balance, u64::MAX);
    assert_eq!((a, b), (0, 0));
}
