//! Data model of one escrow round: the round record, the per-participant
//! record, the status lifecycle and the error taxonomy.

use vstd::prelude::*;

verus! {

/// Largest number of participants a round may be created for.
pub const MAX_PLAYERS: u8 = 10;

/// Longest room code a round may carry, in characters.
pub const MAX_ROOM_CODE_LEN: usize = 10;

/// A ledger identity: the 32-byte address of an account on the custody
/// substrate. The engine only ever compares identities for equality; it
/// never inspects them otherwise.
#[derive(Clone, Copy, PartialEq, Eq, Debug)]
pub struct Identity {
    pub bytes: [u8; 32],
}

impl Identity {
    /// Equality of identities, byte for byte.
    pub fn same_as(&self, other: &Identity) -> (r: bool)
        ensures
            r == (*self == *other),
    {
        let mut i: usize = 0;
        while i < 32
            invariant
                i <= 32,
                forall|j: int| 0 <= j < i ==> self.bytes@[j] == other.bytes@[j],
            decreases 32 - i,
        {
            if self.bytes[i] != other.bytes[i] {
                return false;
            }
            i += 1;
        }
        proof {
            assert(self.bytes =~= other.bytes);
        }
        true
    }
}

/// Lifecycle of a round. `Completed` and `Cancelled` are terminal.
#[derive(Clone, Copy, PartialEq, Eq, Structural, Debug)]
pub enum GameStatus {
    Waiting,
    Playing,
    Distributing,
    Completed,
    Cancelled,
}

/// Whether a status is terminal: no operation moves a round out of it.
pub open spec fn is_terminal(s: GameStatus) -> bool {
    s == GameStatus::Completed || s == GameStatus::Cancelled
}

/// The round record: organizer, stakes, occupancy, custodial pot and
/// lifecycle timestamps. All fields but `player_count`, `total_pot` and
/// `status` are immutable after creation.
#[derive(Clone, Debug)]
pub struct GameState {
    pub host: Identity,
    pub room_code: String,
    pub buy_in_lamports: u64,
    pub max_players: u8,
    pub player_count: u8,
    pub total_pot: u64,
    pub status: GameStatus,
    pub created_at: i64,
    pub expires_at: i64,
    pub bump: u8,
}

/// The per-participant record, one per (round, identity) pair. `joined` and
/// `refunded` are monotone: once set they are never cleared.
#[derive(Clone, Copy, PartialEq, Eq, Debug)]
pub struct PlayerEntry {
    pub player: Identity,
    pub game: Identity,
    pub joined: bool,
    pub refunded: bool,
    pub payout: u64,
    pub bump: u8,
}

/// The single custody transfer an operation requires of the substrate.
/// Every debit of the custody holder is paired with the pot decrement of the
/// same operation, and every credit with its pot increment.
#[derive(Clone, Copy, PartialEq, Eq, Debug)]
pub enum CustodyMove {
    /// A buy-in moving from a participant into custody.
    Deposit { from: Identity, amount: u64 },
    /// An organizer-directed payout moving from custody to a recipient.
    Payout { to: Identity, amount: u64 },
    /// A buy-in moving from custody back to a participant.
    Refund { to: Identity, amount: u64 },
}

/// Every way an operation can be rejected. A rejected operation leaves all
/// records exactly as they were.
#[derive(Clone, Copy, PartialEq, Eq, Structural, Debug)]
pub enum TransparentError {
    /// The round is not in the `Waiting` state.
    GameNotWaiting,
    /// The round already holds `max_players` participants.
    GameFull,
    /// This participant's record is already marked `joined`.
    AlreadyJoined,
    /// The caller is not the round's organizer.
    NotHost,
    /// Fewer than two participants have joined.
    NotEnoughPlayers,
    /// The round is neither `Playing` nor `Distributing`.
    GameNotActive,
    /// The requested amount exceeds the custodial pot.
    InsufficientPot,
    /// This participant's record is not marked `joined`.
    NotJoined,
    /// This participant has already been refunded.
    AlreadyRefunded,
    /// The round's expiry time has not passed yet.
    GameNotExpired,
    /// The round is already `Completed`.
    GameAlreadyCompleted,
    /// The requested capacity is zero or above `MAX_PLAYERS`.
    InvalidCapacity,
    /// The room code is longer than `MAX_ROOM_CODE_LEN`.
    RoomCodeTooLong,
    /// A balance or counter field would overflow or underflow.
    MathOverflow,
}

/// Well-formedness of a round record, established at creation and preserved
/// by every operation.
pub open spec fn game_well_formed(g: GameState) -> bool {
    &&& 1 <= g.max_players <= MAX_PLAYERS
    &&& g.player_count <= g.max_players
    &&& g.room_code@.len() <= MAX_ROOM_CODE_LEN
}

/// Well-formedness of a participant record: a refund presupposes a join.
pub open spec fn entry_well_formed(e: PlayerEntry) -> bool {
    e.refunded ==> e.joined
}

} // verus!
