use transparent::engine::cancel_game;
use transparent::engine::create_game;
use transparent::engine::distribute;
use transparent::engine::end_game;
use transparent::engine::join_game;
use transparent::engine::refund_all_expired;
use transparent::engine::refund_player;
use transparent::engine::start_game;
use transparent::state::CustodyMove;
use transparent::state::GameState;
use transparent::state::GameStatus;
use transparent::state::Identity;
use transparent::state::PlayerEntry;
use transparent::state::TransparentError;

fn id(n: u8) -> Identity {
    Identity { bytes: [n; 32] }
}

fn fresh_entry() -> PlayerEntry {
    PlayerEntry {
        player: id(0),
        game: id(0),
        joined: false,
        refunded: false,
        payout: 0,
        bump: 0,
    }
}

fn waiting_game(buy_in: u64, capacity: u8) -> GameState {
    create_game(id(1), String::from("ROOM42"), buy_in, capacity, 3600, 1000, 254).unwrap()
}

#[test]
fn create_sets_fresh_waiting_round() {
    let g = waiting_game(100, 2);
    assert_eq!(g.host, id(1));
    assert_eq!(g.room_code, "ROOM42");
    assert_eq!(g.buy_in_lamports, 100);
    assert_eq!(g.max_players, 2);
    assert_eq!(g.player_count, 0);
    assert_eq!(g.total_pot, 0);
    assert_eq!(g.status, GameStatus::Waiting);
    assert_eq!(g.created_at, 1000);
    assert_eq!(g.expires_at, 4600);
    assert_eq!(g.bump, 254);
}

#[test]
fn create_rejects_zero_capacity() {
    let r = create_game(id(1), String::from("R"), 10, 0, 60, 0, 0);
    assert_eq!(r.unwrap_err(), TransparentError::InvalidCapacity);
}

#[test]
fn create_rejects_oversized_capacity() {
    let r = create_game(id(1), String::from("R"), 10, 11, 60, 0, 0);
    assert_eq!(r.unwrap_err(), TransparentError::InvalidCapacity);
}

#[test]
fn create_rejects_long_room_code() {
    let r = create_game(id(1), String::from("ELEVENCHARS"), 10, 2, 60, 0, 0);
    assert_eq!(r.unwrap_err(), TransparentError::RoomCodeTooLong);
}

#[test]
fn create_rejects_expiry_overflow() {
    let r = create_game(id(1), String::from("R"), 10, 2, 1, i64::MAX, 0);
    assert_eq!(r.unwrap_err(), TransparentError::MathOverflow);
}

#[test]
fn two_players_winner_takes_all() {
    // Round with buy-in 100, capacity 2, duration 3600 s.
    let mut g = waiting_game(100, 2);
    let mut e1 = fresh_entry();
    let mut e2 = fresh_entry();

    let m1 = join_game(&mut g, &mut e1, id(2), id(9)).unwrap();
    assert_eq!(
        m1,
        Some(CustodyMove::Deposit { from: id(2), amount: 100 })
    );
    assert_eq!(g.total_pot, 100);
    assert!(e1.joined);
    assert_eq!(e1.player, id(2));
    assert_eq!(e1.game, id(9));

    join_game(&mut g, &mut e2, id(3), id(9)).unwrap();
    assert_eq!(g.total_pot, 200);
    assert_eq!(g.player_count, 2);

    start_game(&mut g, id(1)).unwrap();
    assert_eq!(g.status, GameStatus::Playing);

    let payout = distribute(&mut g, id(1), id(2), 200).unwrap();
    assert_eq!(payout, CustodyMove::Payout { to: id(2), amount: 200 });
    assert_eq!(g.total_pot, 0);
    assert_eq!(g.status, GameStatus::Completed);

    // A further distribution hits the status guard.
    let r = distribute(&mut g, id(1), id(2), 0);
    assert_eq!(r.unwrap_err(), TransparentError::GameNotActive);
}

#[test]
fn split_pot_distribution_completes_on_last_share() {
    let mut g = waiting_game(100, 2);
    let mut e1 = fresh_entry();
    let mut e2 = fresh_entry();
    join_game(&mut g, &mut e1, id(2), id(9)).unwrap();
    join_game(&mut g, &mut e2, id(3), id(9)).unwrap();
    start_game(&mut g, id(1)).unwrap();

    distribute(&mut g, id(1), id(2), 120).unwrap();
    assert_eq!(g.status, GameStatus::Distributing);
    assert_eq!(g.total_pot, 80);

    // The recipient need not be a participant.
    distribute(&mut g, id(1), id(7), 80).unwrap();
    assert_eq!(g.status, GameStatus::Completed);
    assert_eq!(g.total_pot, 0);
}

#[test]
fn expired_round_unwound_by_third_party() {
    // Round with buy-in 50, capacity 4; the organizer never starts it.
    let mut g = waiting_game(50, 4);
    let mut e1 = fresh_entry();
    join_game(&mut g, &mut e1, id(2), id(9)).unwrap();
    assert_eq!(g.total_pot, 50);

    // Not expired yet: rejected.
    let at_expiry = g.expires_at;
    let r = refund_all_expired(&mut g, &mut e1, at_expiry);
    assert_eq!(r.unwrap_err(), TransparentError::GameNotExpired);

    // After expiry the call carries no caller identity at all: any third
    // party may invoke it.
    let later = g.expires_at + 1;
    let m = refund_all_expired(&mut g, &mut e1, later).unwrap();
    assert_eq!(m, Some(CustodyMove::Refund { to: id(2), amount: 50 }));
    assert_eq!(g.total_pot, 0);
    assert_eq!(g.status, GameStatus::Completed);
    assert!(e1.refunded);
    assert_eq!(e1.payout, 50);
}

#[test]
fn expiry_refund_works_while_playing() {
    let mut g = waiting_game(100, 2);
    let mut e1 = fresh_entry();
    let mut e2 = fresh_entry();
    join_game(&mut g, &mut e1, id(2), id(9)).unwrap();
    join_game(&mut g, &mut e2, id(3), id(9)).unwrap();
    start_game(&mut g, id(1)).unwrap();

    let later = g.expires_at + 5;
    refund_all_expired(&mut g, &mut e1, later).unwrap();
    assert_eq!(g.total_pot, 100);
    assert_eq!(g.status, GameStatus::Playing);

    refund_all_expired(&mut g, &mut e2, later).unwrap();
    assert_eq!(g.total_pot, 0);
    assert_eq!(g.status, GameStatus::Completed);
}

#[test]
fn refund_one_then_second_attempt_fails() {
    let mut g = waiting_game(100, 2);
    let mut e1 = fresh_entry();
    join_game(&mut g, &mut e1, id(2), id(9)).unwrap();
    assert_eq!(g.total_pot, 100);
    assert_eq!(g.player_count, 1);

    let m = refund_player(&mut g, &mut e1, id(1)).unwrap();
    assert_eq!(m, Some(CustodyMove::Refund { to: id(2), amount: 100 }));
    assert_eq!(g.total_pot, 0);
    assert_eq!(g.player_count, 0);
    assert!(e1.refunded);

    let r = refund_player(&mut g, &mut e1, id(1));
    assert_eq!(r.unwrap_err(), TransparentError::AlreadyRefunded);
}

#[test]
fn expiry_refund_rejected_when_already_refunded() {
    let mut g = waiting_game(100, 2);
    let mut e1 = fresh_entry();
    join_game(&mut g, &mut e1, id(2), id(9)).unwrap();
    refund_player(&mut g, &mut e1, id(1)).unwrap();

    let later = g.expires_at + 1;
    let r = refund_all_expired(&mut g, &mut e1, later);
    assert_eq!(r.unwrap_err(), TransparentError::AlreadyRefunded);
}

#[test]
fn rejoin_after_refund_is_rejected() {
    let mut g = waiting_game(100, 2);
    let mut e1 = fresh_entry();
    join_game(&mut g, &mut e1, id(2), id(9)).unwrap();
    refund_player(&mut g, &mut e1, id(1)).unwrap();

    // `joined` is never cleared, so the same record cannot join again.
    let r = join_game(&mut g, &mut e1, id(2), id(9));
    assert_eq!(r.unwrap_err(), TransparentError::AlreadyJoined);
}

#[test]
fn join_rejected_when_full() {
    let mut g = waiting_game(10, 1);
    let mut e1 = fresh_entry();
    let mut e2 = fresh_entry();
    join_game(&mut g, &mut e1, id(2), id(9)).unwrap();
    let r = join_game(&mut g, &mut e2, id(3), id(9));
    assert_eq!(r.unwrap_err(), TransparentError::GameFull);
    assert_eq!(g.player_count, 1);
}

#[test]
fn join_rejected_after_start() {
    let mut g = waiting_game(10, 3);
    let mut e1 = fresh_entry();
    let mut e2 = fresh_entry();
    let mut e3 = fresh_entry();
    join_game(&mut g, &mut e1, id(2), id(9)).unwrap();
    join_game(&mut g, &mut e2, id(3), id(9)).unwrap();
    start_game(&mut g, id(1)).unwrap();
    let r = join_game(&mut g, &mut e3, id(4), id(9));
    assert_eq!(r.unwrap_err(), TransparentError::GameNotWaiting);
}

#[test]
fn join_rejected_on_pot_overflow() {
    let mut g = waiting_game(u64::MAX, 2);
    let mut e1 = fresh_entry();
    let mut e2 = fresh_entry();
    join_game(&mut g, &mut e1, id(2), id(9)).unwrap();
    let r = join_game(&mut g, &mut e2, id(3), id(9));
    assert_eq!(r.unwrap_err(), TransparentError::MathOverflow);
    assert_eq!(g.total_pot, u64::MAX);
    assert!(!e2.joined);
}

#[test]
fn zero_buy_in_moves_no_funds() {
    let mut g = waiting_game(0, 2);
    let mut e1 = fresh_entry();
    let m = join_game(&mut g, &mut e1, id(2), id(9)).unwrap();
    assert_eq!(m, None);
    assert_eq!(g.total_pot, 0);
    assert!(e1.joined);

    let m = refund_player(&mut g, &mut e1, id(1)).unwrap();
    assert_eq!(m, None);
}

#[test]
fn start_requires_two_players_and_the_host() {
    let mut g = waiting_game(10, 3);
    let mut e1 = fresh_entry();
    join_game(&mut g, &mut e1, id(2), id(9)).unwrap();

    let r = start_game(&mut g, id(2));
    assert_eq!(r.unwrap_err(), TransparentError::NotHost);

    let r = start_game(&mut g, id(1));
    assert_eq!(r.unwrap_err(), TransparentError::NotEnoughPlayers);

    let mut e2 = fresh_entry();
    join_game(&mut g, &mut e2, id(3), id(9)).unwrap();
    start_game(&mut g, id(1)).unwrap();

    let r = start_game(&mut g, id(1));
    assert_eq!(r.unwrap_err(), TransparentError::GameNotWaiting);
}

#[test]
fn distribute_guards() {
    let mut g = waiting_game(100, 2);
    let mut e1 = fresh_entry();
    let mut e2 = fresh_entry();
    join_game(&mut g, &mut e1, id(2), id(9)).unwrap();
    join_game(&mut g, &mut e2, id(3), id(9)).unwrap();

    // Still waiting: the status guard fires before anything else.
    let r = distribute(&mut g, id(1), id(2), 10);
    assert_eq!(r.unwrap_err(), TransparentError::GameNotActive);

    start_game(&mut g, id(1)).unwrap();

    let r = distribute(&mut g, id(2), id(2), 10);
    assert_eq!(r.unwrap_err(), TransparentError::NotHost);

    // Overdraw is rejected and nothing changes.
    let r = distribute(&mut g, id(1), id(2), 201);
    assert_eq!(r.unwrap_err(), TransparentError::InsufficientPot);
    assert_eq!(g.total_pot, 200);
    assert_eq!(g.status, GameStatus::Playing);
}

#[test]
fn end_game_completes_and_is_final() {
    let mut g = waiting_game(10, 2);

    let r = end_game(&mut g, id(2));
    assert_eq!(r.unwrap_err(), TransparentError::NotHost);

    end_game(&mut g, id(1)).unwrap();
    assert_eq!(g.status, GameStatus::Completed);

    let r = end_game(&mut g, id(1));
    assert_eq!(r.unwrap_err(), TransparentError::GameAlreadyCompleted);
}

#[test]
fn refund_guards() {
    let mut g = waiting_game(100, 3);
    let mut e1 = fresh_entry();
    let mut stranger = fresh_entry();
    join_game(&mut g, &mut e1, id(2), id(9)).unwrap();

    let r = refund_player(&mut g, &mut e1, id(2));
    assert_eq!(r.unwrap_err(), TransparentError::NotHost);

    let r = refund_player(&mut g, &mut stranger, id(1));
    assert_eq!(r.unwrap_err(), TransparentError::NotJoined);

    let mut e2 = fresh_entry();
    join_game(&mut g, &mut e2, id(3), id(9)).unwrap();
    start_game(&mut g, id(1)).unwrap();
    let r = refund_player(&mut g, &mut e1, id(1));
    assert_eq!(r.unwrap_err(), TransparentError::GameNotWaiting);
}

#[test]
fn expiry_refund_rejected_when_pot_cannot_cover_buy_in() {
    let mut g = waiting_game(100, 2);
    let mut e1 = fresh_entry();
    let mut e2 = fresh_entry();
    join_game(&mut g, &mut e1, id(2), id(9)).unwrap();
    join_game(&mut g, &mut e2, id(3), id(9)).unwrap();
    start_game(&mut g, id(1)).unwrap();
    distribute(&mut g, id(1), id(7), 150).unwrap();
    assert_eq!(g.total_pot, 50);

    // The pot no longer covers a whole buy-in: the refund is rejected
    // rather than overdrawing custody.
    let later = g.expires_at + 1;
    let r = refund_all_expired(&mut g, &mut e1, later);
    assert_eq!(r.unwrap_err(), TransparentError::InsufficientPot);
    assert_eq!(g.total_pot, 50);
    assert!(!e1.refunded);
}

#[test]
fn expiry_refund_rejected_once_completed() {
    let mut g = waiting_game(10, 2);
    end_game(&mut g, id(1)).unwrap();
    let mut e1 = fresh_entry();
    e1.joined = true;
    let later = g.expires_at + 1;
    let r = refund_all_expired(&mut g, &mut e1, later);
    assert_eq!(r.unwrap_err(), TransparentError::GameAlreadyCompleted);
}

#[test]
fn cancelled_round_refunds_through_expiry_and_stays_cancelled() {
    let mut g = waiting_game(100, 2);
    let mut e1 = fresh_entry();
    join_game(&mut g, &mut e1, id(2), id(9)).unwrap();

    let r = cancel_game(&mut g, id(2));
    assert_eq!(r.unwrap_err(), TransparentError::NotHost);
    cancel_game(&mut g, id(1)).unwrap();
    assert_eq!(g.status, GameStatus::Cancelled);

    // No further joins, no second cancellation.
    let mut e2 = fresh_entry();
    let r = join_game(&mut g, &mut e2, id(3), id(9));
    assert_eq!(r.unwrap_err(), TransparentError::GameNotWaiting);
    let r = cancel_game(&mut g, id(1));
    assert_eq!(r.unwrap_err(), TransparentError::GameNotWaiting);

    // The expiry path still makes the participant whole, and the round
    // stays cancelled even with an empty pot.
    let later = g.expires_at + 1;
    let m = refund_all_expired(&mut g, &mut e1, later).unwrap();
    assert_eq!(m, Some(CustodyMove::Refund { to: id(2), amount: 100 }));
    assert_eq!(g.total_pot, 0);
    assert_eq!(g.status, GameStatus::Cancelled);
}

#[test]
fn conservation_across_a_mixed_run() {
    // pot == deposited - distributed - refunded at every point.
    let mut g = waiting_game(100, 3);
    let mut e1 = fresh_entry();
    let mut e2 = fresh_entry();
    let mut e3 = fresh_entry();
    let mut deposited: u64 = 0;
    let mut distributed: u64 = 0;
    let mut refunded: u64 = 0;

    join_game(&mut g, &mut e1, id(2), id(9)).unwrap();
    deposited += 100;
    assert_eq!(g.total_pot, deposited - distributed - refunded);

    join_game(&mut g, &mut e2, id(3), id(9)).unwrap();
    deposited += 100;
    join_game(&mut g, &mut e3, id(4), id(9)).unwrap();
    deposited += 100;
    assert_eq!(g.total_pot, deposited - distributed - refunded);

    refund_player(&mut g, &mut e3, id(1)).unwrap();
    refunded += 100;
    assert_eq!(g.total_pot, deposited - distributed - refunded);

    start_game(&mut g, id(1)).unwrap();
    distribute(&mut g, id(1), id(2), 50).unwrap();
    distributed += 50;
    assert_eq!(g.total_pot, deposited - distributed - refunded);

    let later = g.expires_at + 1;
    refund_all_expired(&mut g, &mut e1, later).unwrap();
    refunded += 100;
    assert_eq!(g.total_pot, deposited - distributed - refunded);
    assert_eq!(g.total_pot, 50);
}
