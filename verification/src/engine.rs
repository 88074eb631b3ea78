//! The escrow engine: one function per state-transition operation.
//!
//! Each operation validates its guards against the round and participant
//! records, mutates the records, and reports the single custody transfer the
//! substrate must perform atomically with the record update. A rejected
//! operation returns the specific violation and leaves every record
//! unchanged.
//!
//! Each executable operation is pinned, input for input, to a spec-level
//! transition function (`spec_join_game` and so on); the laws module states
//! the global properties over those transition functions.

use vstd::prelude::*;

use crate::state::CustodyMove;
use crate::state::GameState;
use crate::state::GameStatus;
use crate::state::Identity;
use crate::state::PlayerEntry;
use crate::state::TransparentError;
use crate::state::MAX_PLAYERS;
use crate::state::MAX_ROOM_CODE_LEN;
use crate::state::is_terminal;

verus! {

/// Outcome of an operation that can touch the round record, the participant
/// record, and move funds.
pub type EntryOutcome = Result<(GameState, PlayerEntry, Option<CustodyMove>), TransparentError>;

/// Outcome of an operation that only touches the round record.
pub type RoundOutcome = Result<GameState, TransparentError>;

// ── Round creation ───────────────────────────────────────

/// When round creation is accepted: a positive capacity within the fixed
/// maximum, a bounded room code, and an expiry timestamp that fits in `i64`.
pub open spec fn create_game_allowed(
    room_code: Seq<char>,
    max_players: u8,
    expiry_seconds: i64,
    now: i64,
) -> bool {
    &&& 1 <= max_players <= MAX_PLAYERS
    &&& room_code.len() <= MAX_ROOM_CODE_LEN
    &&& i64::MIN <= now + expiry_seconds <= i64::MAX
}

/// The violation reported when creation is rejected, first failing guard
/// first.
pub open spec fn spec_create_game_err(
    room_code: Seq<char>,
    max_players: u8,
    expiry_seconds: i64,
    now: i64,
) -> TransparentError {
    if !(1 <= max_players <= MAX_PLAYERS) {
        TransparentError::InvalidCapacity
    } else if room_code.len() > MAX_ROOM_CODE_LEN {
        TransparentError::RoomCodeTooLong
    } else {
        TransparentError::MathOverflow
    }
}

/// Creates a round: status `Waiting`, empty pot, no participants, expiry
/// fixed at `now + expiry_seconds`. No custody transfer occurs. The
/// substrate is responsible for rejecting a second record at the same
/// derived address (a duplicate room code for one organizer).
pub fn create_game(
    host: Identity,
    room_code: String,
    buy_in_lamports: u64,
    max_players: u8,
    expiry_seconds: i64,
    now: i64,
    bump: u8,
) -> (r: RoundOutcome)
    ensures
        match r {
            Ok(g) => {
                &&& create_game_allowed(room_code@, max_players, expiry_seconds, now)
                &&& g.host == host
                &&& g.room_code@ == room_code@
                &&& g.buy_in_lamports == buy_in_lamports
                &&& g.max_players == max_players
                &&& g.player_count == 0
                &&& g.total_pot == 0
                &&& g.status == GameStatus::Waiting
                &&& g.created_at == now
                &&& g.expires_at == now + expiry_seconds
                &&& g.bump == bump
                &&& crate::state::game_well_formed(g)
            },
            Err(e) => {
                &&& !create_game_allowed(room_code@, max_players, expiry_seconds, now)
                &&& e == spec_create_game_err(room_code@, max_players, expiry_seconds, now)
            },
        },
{
    if max_players < 1 || max_players > MAX_PLAYERS {
        return Err(TransparentError::InvalidCapacity);
    }
    if room_code.as_str().unicode_len() > MAX_ROOM_CODE_LEN {
        return Err(TransparentError::RoomCodeTooLong);
    }
    let expires_at = match now.checked_add(expiry_seconds) {
        Some(t) => t,
        None => {
            return Err(TransparentError::MathOverflow);
        },
    };
    Ok(GameState {
        host,
        room_code,
        buy_in_lamports,
        max_players,
        player_count: 0,
        total_pot: 0,
        status: GameStatus::Waiting,
        created_at: now,
        expires_at,
        bump,
    })
}

// ── Join ─────────────────────────────────────────────────

/// The join transition. A participant may deposit one buy-in into a waiting,
/// non-full round it has never joined before; re-joining is rejected even
/// after a refund, because `joined` is never cleared.
pub open spec fn spec_join_game(
    g: GameState,
    e: PlayerEntry,
    player: Identity,
    game_address: Identity,
) -> EntryOutcome {
    if g.status != GameStatus::Waiting {
        Err(TransparentError::GameNotWaiting)
    } else if g.player_count >= g.max_players {
        Err(TransparentError::GameFull)
    } else if e.joined {
        Err(TransparentError::AlreadyJoined)
    } else if g.total_pot + g.buy_in_lamports > u64::MAX {
        Err(TransparentError::MathOverflow)
    } else {
        Ok(
            (
                GameState {
                    player_count: (g.player_count + 1) as u8,
                    total_pot: (g.total_pot + g.buy_in_lamports) as u64,
                    ..g
                },
                PlayerEntry {
                    player,
                    game: game_address,
                    joined: true,
                    refunded: false,
                    payout: 0,
                    ..e
                },
                if g.buy_in_lamports > 0 {
                    Some(CustodyMove::Deposit { from: player, amount: g.buy_in_lamports })
                } else {
                    Option::<CustodyMove>::None
                },
            ),
        )
    }
}

/// A participant joins the round. On success the returned deposit (the
/// buy-in, when it is nonzero) must be transferred into custody by the
/// substrate atomically with this record update; if that transfer fails,
/// the whole operation is void.
pub fn join_game(
    game: &mut GameState,
    entry: &mut PlayerEntry,
    player: Identity,
    game_address: Identity,
) -> (r: Result<Option<CustodyMove>, TransparentError>)
    ensures
        match r {
            Ok(m) => spec_join_game(*old(game), *old(entry), player, game_address) == Ok::<
                _,
                TransparentError,
            >((*final(game), *final(entry), m)),
            Err(e) => {
                &&& spec_join_game(*old(game), *old(entry), player, game_address) matches Err(e2)
                    && e == e2
                &&& *final(game) == *old(game)
                &&& *final(entry) == *old(entry)
            },
        },
{
    if game.status != GameStatus::Waiting {
        return Err(TransparentError::GameNotWaiting);
    }
    if game.player_count >= game.max_players {
        return Err(TransparentError::GameFull);
    }
    if entry.joined {
        return Err(TransparentError::AlreadyJoined);
    }
    let new_pot = match game.total_pot.checked_add(game.buy_in_lamports) {
        Some(p) => p,
        None => {
            return Err(TransparentError::MathOverflow);
        },
    };
    entry.player = player;
    entry.game = game_address;
    entry.joined = true;
    entry.refunded = false;
    entry.payout = 0;
    game.player_count = game.player_count + 1;
    game.total_pot = new_pot;
    if game.buy_in_lamports > 0 {
        Ok(Some(CustodyMove::Deposit { from: player, amount: game.buy_in_lamports }))
    } else {
        Ok(Option::<CustodyMove>::None)
    }
}

// ── Start ────────────────────────────────────────────────

/// The start transition: the organizer closes a waiting round with at least
/// two participants to further joins.
pub open spec fn spec_start_game(g: GameState, caller: Identity) -> RoundOutcome {
    if g.status != GameStatus::Waiting {
        Err(TransparentError::GameNotWaiting)
    } else if g.host != caller {
        Err(TransparentError::NotHost)
    } else if g.player_count < 2 {
        Err(TransparentError::NotEnoughPlayers)
    } else {
        Ok(GameState { status: GameStatus::Playing, ..g })
    }
}

/// The organizer starts the round. No funds move.
pub fn start_game(game: &mut GameState, caller: Identity) -> (r: Result<(), TransparentError>)
    ensures
        match r {
            Ok(_) => spec_start_game(*old(game), caller) == Ok::<_, TransparentError>(
                *final(game),
            ),
            Err(e) => {
                &&& spec_start_game(*old(game), caller) matches Err(e2) && e == e2
                &&& *final(game) == *old(game)
            },
        },
{
    if game.status != GameStatus::Waiting {
        return Err(TransparentError::GameNotWaiting);
    }
    if !game.host.same_as(&caller) {
        return Err(TransparentError::NotHost);
    }
    if game.player_count < 2 {
        return Err(TransparentError::NotEnoughPlayers);
    }
    game.status = GameStatus::Playing;
    Ok(())
}

// ── Distribution ─────────────────────────────────────────

/// The distribution transition: the organizer pays part of the pot out of
/// custody to any recipient. When the pot reaches zero the round completes.
pub open spec fn spec_distribute(
    g: GameState,
    caller: Identity,
    recipient: Identity,
    amount_lamports: u64,
) -> Result<(GameState, CustodyMove), TransparentError> {
    if g.status != GameStatus::Playing && g.status != GameStatus::Distributing {
        Err(TransparentError::GameNotActive)
    } else if g.host != caller {
        Err(TransparentError::NotHost)
    } else if amount_lamports > g.total_pot {
        Err(TransparentError::InsufficientPot)
    } else {
        Ok(
            (
                GameState {
                    total_pot: (g.total_pot - amount_lamports) as u64,
                    status: if g.total_pot == amount_lamports {
                        GameStatus::Completed
                    } else {
                        GameStatus::Distributing
                    },
                    ..g
                },
                CustodyMove::Payout { to: recipient, amount: amount_lamports },
            ),
        )
    }
}

/// The organizer distributes `amount_lamports` from custody to `recipient`,
/// who need not be a participant. May be called repeatedly for split pots;
/// each call is independently atomic. A request above the current pot is
/// rejected without any effect.
pub fn distribute(
    game: &mut GameState,
    caller: Identity,
    recipient: Identity,
    amount_lamports: u64,
) -> (r: Result<CustodyMove, TransparentError>)
    ensures
        match r {
            Ok(m) => spec_distribute(*old(game), caller, recipient, amount_lamports) == Ok::<
                _,
                TransparentError,
            >((*final(game), m)),
            Err(e) => {
                &&& spec_distribute(*old(game), caller, recipient, amount_lamports) matches Err(e2)
                    && e == e2
                &&& *final(game) == *old(game)
            },
        },
{
    if !matches!(game.status, GameStatus::Playing | GameStatus::Distributing) {
        return Err(TransparentError::GameNotActive);
    }
    if !game.host.same_as(&caller) {
        return Err(TransparentError::NotHost);
    }
    if amount_lamports > game.total_pot {
        return Err(TransparentError::InsufficientPot);
    }
    game.total_pot = game.total_pot - amount_lamports;
    game.status = if game.total_pot == 0 {
        GameStatus::Completed
    } else {
        GameStatus::Distributing
    };
    Ok(CustodyMove::Payout { to: recipient, amount: amount_lamports })
}

// ── End ──────────────────────────────────────────────────

/// The end transition: the organizer completes any non-terminal round. The
/// pot may still be nonzero; the organizer sweeps it via distribution first
/// if desired.
pub open spec fn spec_end_game(g: GameState, caller: Identity) -> RoundOutcome {
    if g.host != caller {
        Err(TransparentError::NotHost)
    } else if is_terminal(g.status) {
        Err(TransparentError::GameAlreadyCompleted)
    } else {
        Ok(GameState { status: GameStatus::Completed, ..g })
    }
}

/// The organizer ends the round. No funds move.
pub fn end_game(game: &mut GameState, caller: Identity) -> (r: Result<(), TransparentError>)
    ensures
        match r {
            Ok(_) => spec_end_game(*old(game), caller) == Ok::<_, TransparentError>(*final(game)),
            Err(e) => {
                &&& spec_end_game(*old(game), caller) matches Err(e2) && e == e2
                &&& *final(game) == *old(game)
            },
        },
{
    if !game.host.same_as(&caller) {
        return Err(TransparentError::NotHost);
    }
    if matches!(game.status, GameStatus::Completed | GameStatus::Cancelled) {
        return Err(TransparentError::GameAlreadyCompleted);
    }
    game.status = GameStatus::Completed;
    Ok(())
}

// ── Organizer-initiated single refund ────────────────────

/// The single-refund transition: while the round is still waiting, the
/// organizer returns one joined, not-yet-refunded participant's buy-in out
/// of custody. The participant's record stays, marked `refunded`, so a
/// second refund is rejected.
pub open spec fn spec_refund_player(g: GameState, e: PlayerEntry, caller: Identity) -> EntryOutcome {
    if g.host != caller {
        Err(TransparentError::NotHost)
    } else if g.status != GameStatus::Waiting {
        Err(TransparentError::GameNotWaiting)
    } else if !e.joined {
        Err(TransparentError::NotJoined)
    } else if e.refunded {
        Err(TransparentError::AlreadyRefunded)
    } else if g.buy_in_lamports > g.total_pot {
        Err(TransparentError::InsufficientPot)
    } else if g.player_count < 1 {
        Err(TransparentError::MathOverflow)
    } else {
        Ok(
            (
                GameState {
                    player_count: (g.player_count - 1) as u8,
                    total_pot: (g.total_pot - g.buy_in_lamports) as u64,
                    ..g
                },
                PlayerEntry { refunded: true, payout: g.buy_in_lamports, ..e },
                if g.buy_in_lamports > 0 {
                    Some(CustodyMove::Refund { to: e.player, amount: g.buy_in_lamports })
                } else {
                    Option::<CustodyMove>::None
                },
            ),
        )
    }
}

/// The organizer refunds one participant who backs out before the round
/// starts. On success the returned refund must be transferred out of
/// custody by the substrate atomically with this record update.
pub fn refund_player(game: &mut GameState, entry: &mut PlayerEntry, caller: Identity) -> (r: Result<
    Option<CustodyMove>,
    TransparentError,
>)
    ensures
        match r {
            Ok(m) => spec_refund_player(*old(game), *old(entry), caller) == Ok::<
                _,
                TransparentError,
            >((*final(game), *final(entry), m)),
            Err(e) => {
                &&& spec_refund_player(*old(game), *old(entry), caller) matches Err(e2) && e == e2
                &&& *final(game) == *old(game)
                &&& *final(entry) == *old(entry)
            },
        },
{
    if !game.host.same_as(&caller) {
        return Err(TransparentError::NotHost);
    }
    if game.status != GameStatus::Waiting {
        return Err(TransparentError::GameNotWaiting);
    }
    if !entry.joined {
        return Err(TransparentError::NotJoined);
    }
    if entry.refunded {
        return Err(TransparentError::AlreadyRefunded);
    }
    if game.buy_in_lamports > game.total_pot {
        return Err(TransparentError::InsufficientPot);
    }
    if game.player_count < 1 {
        return Err(TransparentError::MathOverflow);
    }
    entry.refunded = true;
    entry.payout = game.buy_in_lamports;
    game.player_count = game.player_count - 1;
    game.total_pot = game.total_pot - game.buy_in_lamports;
    if game.buy_in_lamports > 0 {
        Ok(Some(CustodyMove::Refund { to: entry.player, amount: game.buy_in_lamports }))
    } else {
        Ok(Option::<CustodyMove>::None)
    }
}

// ── Permissionless expiry refund ─────────────────────────

/// The expiry-refund transition, the trust anchor of the system: it takes
/// no caller identity at all. Once the round has expired, anyone may return
/// one joined, not-yet-refunded participant's buy-in, whatever the round's
/// status short of `Completed`. When the pot of a non-cancelled round
/// reaches zero, the round completes; a cancelled round stays cancelled.
pub open spec fn spec_refund_expired(g: GameState, e: PlayerEntry, now: i64) -> EntryOutcome {
    if now <= g.expires_at {
        Err(TransparentError::GameNotExpired)
    } else if g.status == GameStatus::Completed {
        Err(TransparentError::GameAlreadyCompleted)
    } else if !e.joined {
        Err(TransparentError::NotJoined)
    } else if e.refunded {
        Err(TransparentError::AlreadyRefunded)
    } else if g.buy_in_lamports > g.total_pot {
        Err(TransparentError::InsufficientPot)
    } else {
        Ok(
            (
                GameState {
                    total_pot: (g.total_pot - g.buy_in_lamports) as u64,
                    status: if g.total_pot == g.buy_in_lamports && g.status != GameStatus::Cancelled {
                        GameStatus::Completed
                    } else {
                        g.status
                    },
                    ..g
                },
                PlayerEntry { refunded: true, payout: g.buy_in_lamports, ..e },
                if g.buy_in_lamports > 0 {
                    Some(CustodyMove::Refund { to: e.player, amount: g.buy_in_lamports })
                } else {
                    Option::<CustodyMove>::None
                },
            ),
        )
    }
}

/// Any party refunds one participant of an expired round. There is no
/// caller parameter: this operation is deliberately permissionless. A full
/// unwind of an abandoned round is one call per joined participant.
/// `player_count` is left as an audit of how many ever joined.
pub fn refund_all_expired(game: &mut GameState, entry: &mut PlayerEntry, now: i64) -> (r: Result<
    Option<CustodyMove>,
    TransparentError,
>)
    ensures
        match r {
            Ok(m) => spec_refund_expired(*old(game), *old(entry), now) == Ok::<
                _,
                TransparentError,
            >((*final(game), *final(entry), m)),
            Err(e) => {
                &&& spec_refund_expired(*old(game), *old(entry), now) matches Err(e2) && e == e2
                &&& *final(game) == *old(game)
                &&& *final(entry) == *old(entry)
            },
        },
{
    if now <= game.expires_at {
        return Err(TransparentError::GameNotExpired);
    }
    if matches!(game.status, GameStatus::Completed) {
        return Err(TransparentError::GameAlreadyCompleted);
    }
    if !entry.joined {
        return Err(TransparentError::NotJoined);
    }
    if entry.refunded {
        return Err(TransparentError::AlreadyRefunded);
    }
    if game.buy_in_lamports > game.total_pot {
        return Err(TransparentError::InsufficientPot);
    }
    entry.refunded = true;
    entry.payout = game.buy_in_lamports;
    game.total_pot = game.total_pot - game.buy_in_lamports;
    if game.total_pot == 0 && !matches!(game.status, GameStatus::Cancelled) {
        game.status = GameStatus::Completed;
    }
    if game.buy_in_lamports > 0 {
        Ok(Some(CustodyMove::Refund { to: entry.player, amount: game.buy_in_lamports }))
    } else {
        Ok(Option::<CustodyMove>::None)
    }
}

// ── Cancellation ─────────────────────────────────────────

/// The cancel transition: the organizer abandons a waiting round. No funds
/// move; already-joined participants are made whole through the expiry
/// refund once the round expires.
pub open spec fn spec_cancel_game(g: GameState, caller: Identity) -> RoundOutcome {
    if g.host != caller {
        Err(TransparentError::NotHost)
    } else if g.status != GameStatus::Waiting {
        Err(TransparentError::GameNotWaiting)
    } else {
        Ok(GameState { status: GameStatus::Cancelled, ..g })
    }
}

/// The organizer cancels a waiting round.
pub fn cancel_game(game: &mut GameState, caller: Identity) -> (r: Result<(), TransparentError>)
    ensures
        match r {
            Ok(_) => spec_cancel_game(*old(game), caller) == Ok::<_, TransparentError>(
                *final(game),
            ),
            Err(e) => {
                &&& spec_cancel_game(*old(game), caller) matches Err(e2) && e == e2
                &&& *final(game) == *old(game)
            },
        },
{
    if !game.host.same_as(&caller) {
        return Err(TransparentError::NotHost);
    }
    if game.status != GameStatus::Waiting {
        return Err(TransparentError::GameNotWaiting);
    }
    game.status = GameStatus::Cancelled;
    Ok(())
}

} // verus!
