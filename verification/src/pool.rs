//! A simpler pooled variant of the escrow: one record holds the roster and
//! the pot, a round is merely open or settled, and settlement pays the
//! whole pot to one winner drawn from the roster.

use vstd::prelude::*;

use crate::state::CustodyMove;
use crate::state::Identity;

verus! {

/// Largest roster a pooled round accepts.
pub const POOL_MAX_PLAYERS: usize = 10;

/// The pooled round record.
#[derive(Clone, Debug)]
pub struct Game {
    pub host: Identity,
    pub room_name: String,
    pub buy_in: u64,
    pub pot_total: u64,
    pub is_open: bool,
    pub players: Vec<Identity>,
}

/// Every way a pooled operation can be rejected.
#[derive(Clone, Copy, PartialEq, Eq, Structural, Debug)]
pub enum ErrorCode {
    /// The round is settled and takes no further operations.
    GameClosed,
    /// This identity is already on the roster.
    AlreadyJoined,
    /// The roster already holds `POOL_MAX_PLAYERS` identities.
    GameFull,
    /// The designated winner is not on the roster.
    WinnerNotInGame,
    /// The caller is not the round's organizer.
    NotHost,
}

/// Whether a roster holds an identity.
pub fn roster_contains(players: &Vec<Identity>, who: &Identity) -> (b: bool)
    ensures
        b == players@.contains(*who),
{
    let mut i: usize = 0;
    while i < players.len()
        invariant
            i <= players@.len(),
            forall|j: int| 0 <= j < i ==> players@[j] != *who,
        decreases players@.len() - i,
    {
        if players[i].same_as(who) {
            return true;
        }
        i += 1;
    }
    false
}

/// Opens a pooled round: empty roster, empty pot.
pub fn create_game(host: Identity, room_name: String, buy_in: u64) -> (g: Game)
    ensures
        g.host == host,
        g.room_name@ == room_name@,
        g.buy_in == buy_in,
        g.pot_total == 0,
        g.is_open,
        g.players@ == Seq::<Identity>::empty(),
{
    let g = Game { host, room_name, buy_in, pot_total: 0, is_open: true, players: Vec::new() };
    proof {
        assert(g.players@ =~= Seq::<Identity>::empty());
    }
    g
}

/// When a join of a pooled round is accepted.
pub open spec fn pool_join_allowed(g: Game, player: Identity) -> bool {
    &&& g.is_open
    &&& !g.players@.contains(player)
    &&& g.players@.len() < POOL_MAX_PLAYERS
}

/// The violation a rejected join reports, first failing guard first.
pub open spec fn spec_pool_join_err(g: Game, player: Identity) -> ErrorCode {
    if !g.is_open {
        ErrorCode::GameClosed
    } else if g.players@.contains(player) {
        ErrorCode::AlreadyJoined
    } else {
        ErrorCode::GameFull
    }
}

/// An identity joins the pooled round: it goes on the roster and its
/// buy-in, reported as the returned deposit, goes into the pot.
pub fn join_game(game: &mut Game, player: Identity) -> (r: Result<CustodyMove, ErrorCode>)
    requires
        old(game).pot_total + old(game).buy_in <= u64::MAX,
    ensures
        match r {
            Ok(m) => {
                &&& pool_join_allowed(*old(game), player)
                &&& m == (CustodyMove::Deposit { from: player, amount: old(game).buy_in })
                &&& final(game).players@ == old(game).players@.push(player)
                &&& final(game).pot_total == old(game).pot_total + old(game).buy_in
                &&& final(game).is_open == old(game).is_open
                &&& final(game).host == old(game).host
                &&& final(game).buy_in == old(game).buy_in
                &&& final(game).room_name@ == old(game).room_name@
            },
            Err(e) => {
                &&& !pool_join_allowed(*old(game), player)
                &&& e == spec_pool_join_err(*old(game), player)
                &&& *final(game) == *old(game)
            },
        },
{
    if !game.is_open {
        return Err(ErrorCode::GameClosed);
    }
    if roster_contains(&game.players, &player) {
        return Err(ErrorCode::AlreadyJoined);
    }
    if game.players.len() >= POOL_MAX_PLAYERS {
        return Err(ErrorCode::GameFull);
    }
    game.players.push(player);
    game.pot_total = game.pot_total + game.buy_in;
    Ok(CustodyMove::Deposit { from: player, amount: game.buy_in })
}

/// The settlement transition: the organizer pays the whole pot to a winner
/// on the roster and the round closes.
pub open spec fn spec_pool_distribute(g: Game, caller: Identity, winner: Identity) -> Result<
    (Game, CustodyMove),
    ErrorCode,
> {
    if g.host != caller {
        Err(ErrorCode::NotHost)
    } else if !g.is_open {
        Err(ErrorCode::GameClosed)
    } else if !g.players@.contains(winner) {
        Err(ErrorCode::WinnerNotInGame)
    } else {
        Ok(
            (
                Game { pot_total: 0, is_open: false, ..g },
                CustodyMove::Payout { to: winner, amount: g.pot_total },
            ),
        )
    }
}

/// The organizer settles the pooled round, paying the whole pot to one
/// winner drawn from the roster. The returned payout must be transferred
/// out of custody by the substrate atomically with this record update.
pub fn distribute_pot(game: &mut Game, caller: Identity, winner: Identity) -> (r: Result<
    CustodyMove,
    ErrorCode,
>)
    ensures
        match r {
            Ok(m) => spec_pool_distribute(*old(game), caller, winner) == Ok::<_, ErrorCode>(
                (*final(game), m),
            ),
            Err(e) => {
                &&& spec_pool_distribute(*old(game), caller, winner) matches Err(e2) && e == e2
                &&& *final(game) == *old(game)
            },
        },
{
    if !game.host.same_as(&caller) {
        return Err(ErrorCode::NotHost);
    }
    if !game.is_open {
        return Err(ErrorCode::GameClosed);
    }
    if !roster_contains(&game.players, &winner) {
        return Err(ErrorCode::WinnerNotInGame);
    }
    let pot = game.pot_total;
    game.pot_total = 0;
    game.is_open = false;
    Ok(CustodyMove::Payout { to: winner, amount: pot })
}

} // verus!
