//! Global properties of the escrow engine, stated over the spec-level
//! transition functions that every executable operation is pinned to.

use vstd::prelude::*;

use crate::state::CustodyMove;
use crate::state::GameState;
use crate::state::GameStatus;
use crate::state::Identity;
use crate::state::PlayerEntry;
use crate::state::TransparentError;
use crate::state::entry_well_formed;
use crate::state::game_well_formed;
use crate::state::is_terminal;
use crate::engine::spec_cancel_game;
use crate::engine::spec_distribute;
use crate::engine::spec_end_game;
use crate::engine::spec_join_game;
use crate::engine::spec_refund_expired;
use crate::engine::spec_refund_player;
use crate::engine::spec_start_game;

verus! {

// ── Conservation ─────────────────────────────────────────

/// The net effect of one (possibly absent) custody transfer on the pot:
/// deposits flow in, payouts and refunds flow out.
pub open spec fn net_flow(m: Option<CustodyMove>) -> int {
    match m {
        Some(CustodyMove::Deposit { amount, .. }) => amount as int,
        Some(CustodyMove::Payout { amount, .. }) => -(amount as int),
        Some(CustodyMove::Refund { amount, .. }) => -(amount as int),
        Option::None => 0,
    }
}

/// Everything deposited into custody over a sequence of transfers.
pub open spec fn deposited_total(ms: Seq<Option<CustodyMove>>) -> int
    decreases ms.len(),
{
    if ms.len() == 0 {
        0
    } else {
        (match ms[0] {
            Some(CustodyMove::Deposit { amount, .. }) => amount as int,
            _ => 0,
        }) + deposited_total(ms.drop_first())
    }
}

/// Everything distributed out of custody over a sequence of transfers.
pub open spec fn distributed_total(ms: Seq<Option<CustodyMove>>) -> int
    decreases ms.len(),
{
    if ms.len() == 0 {
        0
    } else {
        (match ms[0] {
            Some(CustodyMove::Payout { amount, .. }) => amount as int,
            _ => 0,
        }) + distributed_total(ms.drop_first())
    }
}

/// Everything refunded out of custody over a sequence of transfers.
pub open spec fn refunded_total(ms: Seq<Option<CustodyMove>>) -> int
    decreases ms.len(),
{
    if ms.len() == 0 {
        0
    } else {
        (match ms[0] {
            Some(CustodyMove::Refund { amount, .. }) => amount as int,
            _ => 0,
        }) + refunded_total(ms.drop_first())
    }
}

/// The pot after a sequence of custody transfers has been applied to an
/// initial balance.
pub open spec fn pot_after(initial: int, ms: Seq<Option<CustodyMove>>) -> int
    decreases ms.len(),
{
    if ms.len() == 0 {
        initial
    } else {
        pot_after(initial + net_flow(ms[0]), ms.drop_first())
    }
}

/// Conservation, over any sequence of custody transfers: a pot that starts
/// at zero and moves by exactly the transfer of each operation equals, at
/// every observation point, the total deposited minus the total distributed
/// minus the total refunded. Together with the per-operation lemmas below
/// (each successful operation moves the pot by exactly the transfer it
/// reports), money is neither created nor destroyed.
pub proof fn lemma_conservation(initial: int, ms: Seq<Option<CustodyMove>>)
    ensures
        pot_after(initial, ms) == initial + deposited_total(ms) - distributed_total(ms)
            - refunded_total(ms),
    decreases ms.len(),
{
    if ms.len() > 0 {
        lemma_conservation(initial + net_flow(ms[0]), ms.drop_first());
    }
}

/// A successful join grows the pot by exactly the deposit it reports.
pub proof fn lemma_join_moves_pot(g: GameState, e: PlayerEntry, player: Identity, addr: Identity)
    requires
        spec_join_game(g, e, player, addr) matches Ok(_),
    ensures
        ({
            let (g2, _, m) = spec_join_game(g, e, player, addr)->Ok_0;
            g2.total_pot == g.total_pot + net_flow(m)
        }),
{
}

/// A successful distribution shrinks the pot by exactly the payout it
/// reports.
pub proof fn lemma_distribute_moves_pot(
    g: GameState,
    caller: Identity,
    recipient: Identity,
    amount: u64,
)
    requires
        spec_distribute(g, caller, recipient, amount) matches Ok(_),
    ensures
        ({
            let (g2, m) = spec_distribute(g, caller, recipient, amount)->Ok_0;
            g2.total_pot == g.total_pot + net_flow(Some(m))
        }),
{
}

/// A successful refund, by either path, shrinks the pot by exactly the
/// refund it reports.
pub proof fn lemma_refund_moves_pot(g: GameState, e: PlayerEntry, caller: Identity, now: i64)
    ensures
        spec_refund_player(g, e, caller) matches Ok((g2, _, m)) ==> g2.total_pot == g.total_pot
            + net_flow(m),
        spec_refund_expired(g, e, now) matches Ok((g2, _, m)) ==> g2.total_pot == g.total_pot
            + net_flow(m),
{
}

/// The transitions that move no funds leave the pot exactly as it was, so
/// the three lemmas above and this one cover every operation: at every
/// observation point the pot is total deposited minus total distributed
/// minus total refunded.
pub proof fn lemma_no_move_keeps_pot(g: GameState, caller: Identity)
    ensures
        spec_start_game(g, caller) matches Ok(g2) ==> g2.total_pot == g.total_pot,
        spec_end_game(g, caller) matches Ok(g2) ==> g2.total_pot == g.total_pot,
        spec_cancel_game(g, caller) matches Ok(g2) ==> g2.total_pot == g.total_pot,
{
}

// ── No double refund ─────────────────────────────────────

/// At most one refund ever succeeds against a participant record: once the
/// record is marked refunded, both refund paths reject it, and when the
/// guards ahead of the idempotency check pass, the violation reported is
/// precisely `AlreadyRefunded`.
pub proof fn lemma_no_double_refund(
    g: GameState,
    g2: GameState,
    e: PlayerEntry,
    caller: Identity,
    now: i64,
)
    requires
        e.refunded,
    ensures
        spec_refund_player(g, e, caller) matches Err(_),
        spec_refund_expired(g2, e, now) matches Err(_),
        g.host == caller && g.status == GameStatus::Waiting && e.joined ==> spec_refund_player(
            g,
            e,
            caller,
        ) == crate::engine::EntryOutcome::Err(TransparentError::AlreadyRefunded),
        now > g2.expires_at && g2.status != GameStatus::Completed && e.joined
            ==> spec_refund_expired(g2, e, now) == crate::engine::EntryOutcome::Err(
            TransparentError::AlreadyRefunded,
        ),
{
}

/// `refunded` is monotone: no transition ever clears it on a well-formed
/// participant record. (Well-formedness rules out a record marked refunded
/// but never joined, which is unreachable: only a join creates a record and
/// only a refund of a joined record sets the flag.)
pub proof fn lemma_refunded_monotone(
    g: GameState,
    e: PlayerEntry,
    player: Identity,
    addr: Identity,
    caller: Identity,
    now: i64,
)
    requires
        entry_well_formed(e),
        e.refunded,
    ensures
        spec_join_game(g, e, player, addr) matches Err(_),
        spec_refund_player(g, e, caller) matches Err(_),
        spec_refund_expired(g, e, now) matches Err(_),
{
}

// ── No overdraw ──────────────────────────────────────────

/// A distribution or refund whose amount exceeds the current pot is always
/// rejected. (The executable operations additionally guarantee that a
/// rejected call leaves both records untouched.)
pub proof fn lemma_no_overdraw(
    g: GameState,
    e: PlayerEntry,
    caller: Identity,
    recipient: Identity,
    amount: u64,
    now: i64,
)
    ensures
        amount > g.total_pot ==> spec_distribute(g, caller, recipient, amount) matches Err(_),
        g.buy_in_lamports > g.total_pot ==> spec_refund_player(g, e, caller) matches Err(_),
        g.buy_in_lamports > g.total_pot ==> spec_refund_expired(g, e, now) matches Err(_),
{
}

// ── Capacity bound ───────────────────────────────────────

/// Joining a full round always fails — with `GameFull` once the status
/// guard passes — and a successful join never pushes the participant count
/// past the capacity.
pub proof fn lemma_capacity_bound(g: GameState, e: PlayerEntry, player: Identity, addr: Identity)
    ensures
        g.player_count >= g.max_players ==> spec_join_game(g, e, player, addr) matches Err(_),
        g.player_count >= g.max_players && g.status == GameStatus::Waiting ==> spec_join_game(
            g,
            e,
            player,
            addr,
        ) == crate::engine::EntryOutcome::Err(TransparentError::GameFull),
        spec_join_game(g, e, player, addr) matches Ok((g2, _, _)) ==> g2.player_count
            <= g2.max_players,
{
}

// ── Expiry permissionlessness ────────────────────────────

/// Once a round has expired, the expiry refund succeeds for any joined,
/// not-yet-refunded participant whose buy-in the pot still covers,
/// whatever the round's status short of `Completed` — including
/// `Cancelled`. The operation takes no caller identity at all, so no
/// authorization can stand in the way: any third party may restore the
/// participant's funds.
pub proof fn lemma_expiry_refund_permissionless(g: GameState, e: PlayerEntry, now: i64)
    requires
        now > g.expires_at,
        g.status != GameStatus::Completed,
        e.joined,
        !e.refunded,
        g.buy_in_lamports <= g.total_pot,
    ensures
        spec_refund_expired(g, e, now) matches Ok(_),
        ({
            let (_, e2, _) = spec_refund_expired(g, e, now)->Ok_0;
            e2.refunded
        }),
{
}

// ── Monotone lifecycle ───────────────────────────────────

/// The terminal states absorb: no transition moves a round out of
/// `Completed` or `Cancelled`. The expiry refund may still run against a
/// cancelled round for bookkeeping, but the round stays cancelled.
pub proof fn lemma_terminal_absorbing(
    g: GameState,
    e: PlayerEntry,
    player: Identity,
    addr: Identity,
    caller: Identity,
    recipient: Identity,
    amount: u64,
    now: i64,
)
    requires
        is_terminal(g.status),
    ensures
        spec_join_game(g, e, player, addr) matches Err(_),
        spec_start_game(g, caller) matches Err(_),
        spec_distribute(g, caller, recipient, amount) matches Err(_),
        spec_end_game(g, caller) matches Err(_),
        spec_cancel_game(g, caller) matches Err(_),
        spec_refund_player(g, e, caller) matches Err(_),
        spec_refund_expired(g, e, now) matches Ok((g2, _, _)) ==> g2.status == g.status,
{
}

/// The status edges a round may take: the explicit transition table. A
/// round waits, then plays, then distributes, then completes; a waiting
/// round may instead be cancelled; the organizer's end and the last expiry
/// refund complete any non-terminal round directly.
pub open spec fn allowed_transition(from: GameStatus, to: GameStatus) -> bool {
    ||| from == to
    ||| (from == GameStatus::Waiting && to == GameStatus::Playing)
    ||| (from == GameStatus::Waiting && to == GameStatus::Cancelled)
    ||| (from == GameStatus::Playing && to == GameStatus::Distributing)
    ||| (!is_terminal(from) && to == GameStatus::Completed)
}

/// Every operation's status change is an edge of the transition table;
/// no transition re-enters an earlier state.
pub proof fn lemma_transitions_follow_the_table(
    g: GameState,
    e: PlayerEntry,
    player: Identity,
    addr: Identity,
    caller: Identity,
    recipient: Identity,
    amount: u64,
    now: i64,
)
    ensures
        spec_join_game(g, e, player, addr) matches Ok((g2, _, _)) ==> allowed_transition(
            g.status,
            g2.status,
        ),
        spec_start_game(g, caller) matches Ok(g2) ==> allowed_transition(g.status, g2.status),
        spec_distribute(g, caller, recipient, amount) matches Ok((g2, _)) ==> allowed_transition(
            g.status,
            g2.status,
        ),
        spec_end_game(g, caller) matches Ok(g2) ==> allowed_transition(g.status, g2.status),
        spec_cancel_game(g, caller) matches Ok(g2) ==> allowed_transition(g.status, g2.status),
        spec_refund_player(g, e, caller) matches Ok((g2, _, _)) ==> allowed_transition(
            g.status,
            g2.status,
        ),
        spec_refund_expired(g, e, now) matches Ok((g2, _, _)) ==> allowed_transition(
            g.status,
            g2.status,
        ),
{
}

/// Every transition preserves well-formedness of the records it touches.
pub proof fn lemma_well_formedness_preserved(
    g: GameState,
    e: PlayerEntry,
    player: Identity,
    addr: Identity,
    caller: Identity,
    recipient: Identity,
    amount: u64,
    now: i64,
)
    requires
        game_well_formed(g),
        entry_well_formed(e),
    ensures
        spec_join_game(g, e, player, addr) matches Ok((g2, e2, _)) ==> game_well_formed(g2)
            && entry_well_formed(e2),
        spec_start_game(g, caller) matches Ok(g2) ==> game_well_formed(g2),
        spec_distribute(g, caller, recipient, amount) matches Ok((g2, _)) ==> game_well_formed(g2),
        spec_end_game(g, caller) matches Ok(g2) ==> game_well_formed(g2),
        spec_cancel_game(g, caller) matches Ok(g2) ==> game_well_formed(g2),
        spec_refund_player(g, e, caller) matches Ok((g2, e2, _)) ==> game_well_formed(g2)
            && entry_well_formed(e2),
        spec_refund_expired(g, e, now) matches Ok((g2, e2, _)) ==> game_well_formed(g2)
            && entry_well_formed(e2),
{
}

} // verus!
