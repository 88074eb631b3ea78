//! Deterministic custody addressing without a private key.
//!
//! Every record and the custody holder itself live at addresses derived
//! from a fixed domain separator and the owning record's address, so no
//! independent signing key ever controls the pot: the engine authorizes a
//! debit by re-deriving the same address from the same seeds. The
//! derivation itself is the ledger's program-derived-address scheme, called
//! through one trusted wrapper; everything around it is verified.

use vstd::prelude::*;

use crate::state::Identity;

verus! {

/// What `solana_pubkey::Pubkey::try_find_program_address` returns for the
/// given seeds and program id: the derived address and its bump seed, or
/// nothing in the statistically improbable event that no bump works. The
/// result is a function of the seeds and the program id alone.
pub uninterp spec fn pda_of(seeds: Seq<Seq<u8>>, program_id: Seq<u8>) -> Option<(Seq<u8>, u8)>;

/// A derived address and bump, seen as the byte sequence `pda_of` speaks of.
pub open spec fn pda_view(r: Option<(Identity, u8)>) -> Option<(Seq<u8>, u8)> {
    match r {
        Some((id, bump)) => Some((id.bytes@, bump)),
        Option::None => Option::None,
    }
}

/// Relies on `solana_pubkey::Pubkey::try_find_program_address` (the
/// program-derived-address search of the ledger substrate): the derived
/// address and bump depend on the seeds and the program id alone, and the
/// call returns `None` rather than failing when no bump seed is viable.
#[verifier::external_body]
fn find_pda(seeds: &Vec<Vec<u8>>, program_id: &Identity) -> (r: Option<(Identity, u8)>)
    ensures
        pda_view(r) == pda_of(seeds@.map_values(|s: Vec<u8>| s@), program_id.bytes@),
{
    let seed_slices: Vec<&[u8]> = seeds.iter().map(|s| s.as_slice()).collect();
    let program = solana_pubkey::Pubkey::new_from_array(program_id.bytes);
    match solana_pubkey::Pubkey::try_find_program_address(&seed_slices, &program) {
        Some((address, bump)) => Some((Identity { bytes: address.to_bytes() }, bump)),
        None => None,
    }
}

/// The domain separator of round records: the bytes of "game".
pub open spec fn game_tag() -> Seq<u8> {
    seq![103u8, 97u8, 109u8, 101u8]
}

/// The domain separator of the custody holder: the bytes of "escrow".
pub open spec fn escrow_tag() -> Seq<u8> {
    seq![101u8, 115u8, 99u8, 114u8, 111u8, 119u8]
}

/// The domain separator of participant records: the bytes of "player".
pub open spec fn player_tag() -> Seq<u8> {
    seq![112u8, 108u8, 97u8, 121u8, 101u8, 114u8]
}

fn game_tag_bytes() -> (t: Vec<u8>)
    ensures
        t@ == game_tag(),
{
    let mut t: Vec<u8> = Vec::new();
    t.push(103u8);
    t.push(97u8);
    t.push(109u8);
    t.push(101u8);
    proof {
        assert(t@ =~= game_tag());
    }
    t
}

fn escrow_tag_bytes() -> (t: Vec<u8>)
    ensures
        t@ == escrow_tag(),
{
    let mut t: Vec<u8> = Vec::new();
    t.push(101u8);
    t.push(115u8);
    t.push(99u8);
    t.push(114u8);
    t.push(111u8);
    t.push(119u8);
    proof {
        assert(t@ =~= escrow_tag());
    }
    t
}

fn player_tag_bytes() -> (t: Vec<u8>)
    ensures
        t@ == player_tag(),
{
    let mut t: Vec<u8> = Vec::new();
    t.push(112u8);
    t.push(108u8);
    t.push(97u8);
    t.push(121u8);
    t.push(101u8);
    t.push(114u8);
    proof {
        assert(t@ =~= player_tag());
    }
    t
}

/// Copies an identity's 32 bytes into a fresh seed.
fn identity_seed(id: &Identity) -> (v: Vec<u8>)
    ensures
        v@ == id.bytes@,
{
    let mut v: Vec<u8> = Vec::new();
    let mut i: usize = 0;
    while i < 32
        invariant
            i <= 32,
            v@ =~= id.bytes@.take(i as int),
        decreases 32 - i,
    {
        v.push(id.bytes[i]);
        i += 1;
    }
    proof {
        assert(v@ =~= id.bytes@);
    }
    v
}

fn copied_bytes(b: &Vec<u8>) -> (v: Vec<u8>)
    ensures
        v@ == b@,
{
    let mut v: Vec<u8> = Vec::new();
    let mut i: usize = 0;
    while i < b.len()
        invariant
            i <= b@.len(),
            v@ =~= b@.take(i as int),
        decreases b@.len() - i,
    {
        v.push(b[i]);
        i += 1;
    }
    proof {
        assert(v@ =~= b@);
    }
    v
}

/// The address of the round record an organizer creates under a given room
/// code: derived from the "game" separator, the organizer's identity and
/// the room code, so room codes are unique per organizer and nobody else
/// can squat the address.
pub fn derive_game_address(program_id: &Identity, host: &Identity, room_code: &Vec<u8>) -> (r:
    Option<(Identity, u8)>)
    ensures
        pda_view(r) == pda_of(
            seq![game_tag(), host.bytes@, room_code@],
            program_id.bytes@,
        ),
{
    let mut seeds: Vec<Vec<u8>> = Vec::new();
    seeds.push(game_tag_bytes());
    seeds.push(identity_seed(host));
    seeds.push(copied_bytes(room_code));
    proof {
        assert(seeds@.map_values(|s: Vec<u8>| s@) =~= seq![
            game_tag(),
            host.bytes@,
            room_code@,
        ]);
    }
    find_pda(&seeds, program_id)
}

/// The address of the custody holder of a round: derived from the "escrow"
/// separator and the round record's own address. It has no controlling
/// key; only the engine, re-deriving it, may authorize debits.
pub fn derive_custody_address(program_id: &Identity, game_address: &Identity) -> (r: Option<
    (Identity, u8),
>)
    ensures
        pda_view(r) == pda_of(seq![escrow_tag(), game_address.bytes@], program_id.bytes@),
{
    let mut seeds: Vec<Vec<u8>> = Vec::new();
    seeds.push(escrow_tag_bytes());
    seeds.push(identity_seed(game_address));
    proof {
        assert(seeds@.map_values(|s: Vec<u8>| s@) =~= seq![escrow_tag(), game_address.bytes@]);
    }
    find_pda(&seeds, program_id)
}

/// The address of the participant record of one identity in one round:
/// derived from the "player" separator, the round's address and the
/// participant's identity, so each (round, participant) pair owns exactly
/// one record.
pub fn derive_player_entry_address(
    program_id: &Identity,
    game_address: &Identity,
    player: &Identity,
) -> (r: Option<(Identity, u8)>)
    ensures
        pda_view(r) == pda_of(
            seq![player_tag(), game_address.bytes@, player.bytes@],
            program_id.bytes@,
        ),
{
    let mut seeds: Vec<Vec<u8>> = Vec::new();
    seeds.push(player_tag_bytes());
    seeds.push(identity_seed(game_address));
    seeds.push(identity_seed(player));
    proof {
        assert(seeds@.map_values(|s: Vec<u8>| s@) =~= seq![
            player_tag(),
            game_address.bytes@,
            player.bytes@,
        ]);
    }
    find_pda(&seeds, program_id)
}

} // verus!
