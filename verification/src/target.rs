//! The public target of a session.
//!
//! The target is the Keccak-256 digest of the session identifier, written as
//! four big-endian bytes, followed by the address strings of the first and of
//! the second party. Anyone who knows the three can compute it again; no
//! secret enters it.
//!
//! What this gives against replay: sessions with different identifiers hash
//! different bytes, so a proof made for the target of one session is refused
//! by every other session unless the digests collide. It does not hide the
//! target: whoever knows the session and its parties knows it too. A session
//! may instead be opened on a target that the caller supplies, and is then
//! bound to whatever the caller hashed into it.

use crate::types::Address;
use soroban_sdk::testutils::EnvTestConfig;
use soroban_sdk::{Bytes, Env};
use vstd::prelude::*;

verus! {

/// The four bytes of `value`, most significant first.
pub open spec fn be_bytes(value: u32) -> Seq<u8> {
    seq![
        (value / 0x100_0000) as u8,
        (value / 0x1_0000 % 0x100) as u8,
        (value / 0x100 % 0x100) as u8,
        (value % 0x100) as u8,
    ]
}

/// The bytes that are hashed into the target of a session.
pub open spec fn seed(session_id: u32, player1: Seq<u8>, player2: Seq<u8>) -> Seq<u8> {
    be_bytes(session_id) + player1 + player2
}

/// Equal seeds come from the same session identifier and the same address
/// strings in a row; where the first parties' address strings are equally
/// long, as those of one kind of address are, from the same two parties.
pub proof fn lemma_seed_binds_session(
    session_id: u32,
    player1: Seq<u8>,
    player2: Seq<u8>,
    other_id: u32,
    other_player1: Seq<u8>,
    other_player2: Seq<u8>,
)
    requires
        seed(session_id, player1, player2) == seed(other_id, other_player1, other_player2),
    ensures
        session_id == other_id,
        player1 + player2 == other_player1 + other_player2,
        player1.len() == other_player1.len() ==> player1 == other_player1 && player2
            == other_player2,
{
    let left = seed(session_id, player1, player2);
    let right = seed(other_id, other_player1, other_player2);
    assert(be_bytes(session_id) =~= left.subrange(0, 4));
    assert(be_bytes(other_id) =~= right.subrange(0, 4));
    assert(player1 + player2 =~= left.subrange(4, left.len() as int));
    assert(other_player1 + other_player2 =~= right.subrange(4, right.len() as int));
    if player1.len() == other_player1.len() {
        let joined = player1 + player2;
        let cut = player1.len() as int;
        assert(player1 =~= joined.subrange(0, cut));
        assert(other_player1 =~= joined.subrange(0, cut));
        assert(player2 =~= joined.subrange(cut, joined.len() as int));
        assert(other_player2 =~= joined.subrange(cut, joined.len() as int));
    }
}

/// The Keccak-256 digest of `data`.
pub uninterp spec fn keccak256(data: Seq<u8>) -> Seq<u8>;

/// The target of the session `session_id` between `player1` and `player2`.
pub open spec fn target_of(session_id: u32, player1: Seq<u8>, player2: Seq<u8>) -> Seq<u8> {
    keccak256(seed(session_id, player1, player2))
}

/// The Keccak-256 digest of `data`, as the host of `soroban_sdk` computes it.
///
/// Calls `soroban_sdk::crypto::Crypto::keccak256` on the bytes of `data`,
/// handed over with `Bytes::from_slice` and taken back with `Hash::to_array`.
/// The host is one of its own, made with `Env::new_with_config` so that it
/// writes no snapshot when dropped; its budget is lifted with
/// `Budget::reset_unlimited`, since the default budget fails the call on
/// long input.
///
/// Believed, not proved: the 32 bytes returned are the digest, a function of
/// the bytes of `data` alone. The host holds at most `u32::MAX` bytes in one
/// byte string and fails beyond that, so longer input is not admitted.
#[verifier::external_body]
fn keccak256_digest(data: &Vec<u8>) -> (digest: [u8; 32])
    requires
        data@.len() <= u32::MAX,
    ensures
        digest@ == keccak256(data@),
{
    let env = Env::new_with_config(EnvTestConfig { capture_snapshot_at_drop: false });
    env.cost_estimate().budget().reset_unlimited();
    let bytes = Bytes::from_slice(&env, data.as_slice());
    env.crypto().keccak256(&bytes).to_array()
}

/// Appends the bytes of `tail` to `buffer`.
fn append_bytes(buffer: &mut Vec<u8>, tail: &Vec<u8>)
    ensures
        final(buffer)@ == old(buffer)@ + tail@,
{
    let mut i: usize = 0;
    while i < tail.len()
        invariant
            i <= tail.len(),
            buffer@ == old(buffer)@ + tail@.subrange(0, i as int),
        decreases tail.len() - i,
    {
        buffer.push(tail[i]);
        i += 1;
    }
}

/// Lays out the bytes that are hashed into the target of a session.
pub fn session_seed(session_id: u32, player1: &Address, player2: &Address) -> (bytes: Vec<u8>)
    ensures
        bytes@ == seed(session_id, player1@, player2@),
{
    let mut bytes: Vec<u8> = Vec::new();
    bytes.push((session_id / 0x100_0000) as u8);
    bytes.push((session_id / 0x1_0000 % 0x100) as u8);
    bytes.push((session_id / 0x100 % 0x100) as u8);
    bytes.push((session_id % 0x100) as u8);
    append_bytes(&mut bytes, player1.strkey());
    append_bytes(&mut bytes, player2.strkey());
    bytes
}

/// Derives the target of the session `session_id` between `player1` and
/// `player2`.
pub fn derive_target(session_id: u32, player1: &Address, player2: &Address) -> (target: [u8; 32])
    requires
        4 + player1@.len() + player2@.len() <= u32::MAX,
    ensures
        target@ == target_of(session_id, player1@, player2@),
{
    let bytes = session_seed(session_id, player1, player2);
    keccak256_digest(&bytes)
}

} // verus!
