//! The life of sessions on a contract, with stand-ins for the hub and the
//! verifier.

use eather_grid::contract::EatherGridContract;
use eather_grid::types::{Address, Error, Outcome};
use soroban_sdk::testutils::{Address as _, EnvTestConfig};
use soroban_sdk::Env;

/// A verifier that rejects, by panicking, an empty proof and one that starts
/// with `0xff`, and accepts every other.
fn mock_verify(proof: &[u8], _public_inputs: &[u8]) {
    if proof.is_empty() {
        panic!("verify_proof: empty proof");
    }
    if proof[0] == 0xff {
        panic!("verify_proof: invalid proof");
    }
}

/// A hub that counts what it is told.
struct MockGameHub {
    started: Vec<u32>,
    ended: Vec<(u32, bool)>,
}

struct TestSetup {
    env: Env,
    contract: EatherGridContract,
    hub: MockGameHub,
    player1: Address,
    player2: Address,
    verifier_addr: Address,
}

fn generate(env: &Env) -> Address {
    let strkey = soroban_sdk::Address::generate(env).to_string();
    let mut bytes = vec![0u8; strkey.len() as usize];
    strkey.copy_into_slice(&mut bytes);
    Address::from_strkey(bytes)
}

fn setup() -> TestSetup {
    let env = Env::new_with_config(EnvTestConfig {
        capture_snapshot_at_drop: false,
    });
    let admin = generate(&env);
    let hub_addr = generate(&env);
    let verifier_addr = generate(&env);
    let contract = EatherGridContract::new(admin, hub_addr, verifier_addr.clone());
    let player1 = generate(&env);
    let player2 = generate(&env);
    TestSetup {
        env,
        contract,
        hub: MockGameHub {
            started: Vec::new(),
            ended: Vec::new(),
        },
        player1,
        player2,
        verifier_addr,
    }
}

const POINTS: i128 = 100_0000_000;

fn valid_proof() -> Vec<u8> {
    vec![0x01u8; 64]
}

fn invalid_proof() -> Vec<u8> {
    vec![0xffu8; 64]
}

impl TestSetup {
    /// Registers the session with the hub, then opens it.
    fn start_game(&mut self, session_id: u32, player1: &Address, player2: &Address) {
        assert_ne!(player1, player2);
        self.hub.started.push(session_id);
        self.contract
            .start_game(session_id, player1.clone(), player2.clone(), POINTS, POINTS)
            .unwrap();
    }

    /// Checks the submission, has the verifier look at the proof, and records
    /// it when the verifier returned.
    fn try_submit_proof(
        &mut self,
        session_id: u32,
        player: &Address,
        proof: &[u8],
        public_inputs: &Vec<u8>,
    ) -> Result<(), Error> {
        self.contract
            .check_submission(session_id, player, public_inputs)?;
        mock_verify(proof, public_inputs);
        self.contract.submit_proof(session_id, player, public_inputs)
    }

    fn submit_proof(
        &mut self,
        session_id: u32,
        player: &Address,
        proof: &[u8],
        public_inputs: &Vec<u8>,
    ) {
        self.try_submit_proof(session_id, player, proof, public_inputs)
            .unwrap();
    }

    /// Resolves the session and passes the report, if there is one, to the
    /// hub.
    fn try_resolve_game(&mut self, session_id: u32) -> Result<Outcome, Error> {
        let resolution = self.contract.resolve_game(session_id)?;
        if let Some(player1_won) = resolution.report {
            self.hub.ended.push((session_id, player1_won));
        }
        Ok(resolution.outcome)
    }

    fn resolve_game(&mut self, session_id: u32) -> Outcome {
        self.try_resolve_game(session_id).unwrap()
    }

    fn get_public_inputs(&self, session_id: u32) -> Vec<u8> {
        self.contract.get_target(session_id).unwrap().to_vec()
    }
}

#[test]
fn test_start_game_stores_target() {
    let mut ts = setup();
    let session_id = 1u32;
    let (player1, player2) = (ts.player1.clone(), ts.player2.clone());

    ts.start_game(session_id, &player1, &player2);

    let game = ts.contract.get_game(session_id).unwrap();
    assert_eq!(game.player1, ts.player1);
    assert_eq!(game.player2, ts.player2);
    assert!(!game.player1_verified);
    assert!(!game.player2_verified);
    assert!(!game.resolved);

    let target = game.target_public_inputs;
    assert_ne!(target, [0u8; 32], "target should not be all-zero");
}

#[test]
fn test_targets_differ_across_sessions() {
    let mut ts = setup();
    let (player1, player2) = (ts.player1.clone(), ts.player2.clone());

    ts.start_game(1u32, &player1, &player2);
    ts.start_game(2u32, &player1, &player2);

    let t1 = ts.contract.get_target(1u32).unwrap();
    let t2 = ts.contract.get_target(2u32).unwrap();
    assert_ne!(t1, t2, "different sessions must produce different targets");
}

#[test]
fn test_player1_wins_solo() {
    let mut ts = setup();
    let session_id = 10u32;
    let (player1, player2) = (ts.player1.clone(), ts.player2.clone());

    ts.start_game(session_id, &player1, &player2);

    let pi = ts.get_public_inputs(session_id);
    let proof = valid_proof();

    ts.submit_proof(session_id, &player1, &proof, &pi);

    let outcome = ts.resolve_game(session_id);
    assert_eq!(outcome, Outcome::Player1Won);
    assert_eq!(ts.hub.ended, vec![(session_id, true)]);
}

#[test]
fn test_player2_wins_solo() {
    let mut ts = setup();
    let session_id = 11u32;
    let (player1, player2) = (ts.player1.clone(), ts.player2.clone());

    ts.start_game(session_id, &player1, &player2);

    let pi = ts.get_public_inputs(session_id);
    let proof = valid_proof();

    ts.submit_proof(session_id, &player2, &proof, &pi);

    let outcome = ts.resolve_game(session_id);
    assert_eq!(outcome, Outcome::Player2Won);
    assert_eq!(ts.hub.ended, vec![(session_id, false)]);
}

#[test]
fn test_both_win() {
    let mut ts = setup();
    let session_id = 12u32;
    let (player1, player2) = (ts.player1.clone(), ts.player2.clone());

    ts.start_game(session_id, &player1, &player2);

    let pi = ts.get_public_inputs(session_id);
    let proof = valid_proof();

    ts.submit_proof(session_id, &player1, &proof, &pi);
    ts.submit_proof(session_id, &player2, &proof, &pi);

    let outcome = ts.resolve_game(session_id);
    assert_eq!(outcome, Outcome::BothWon);
    assert_eq!(ts.hub.ended, vec![(session_id, true)]);
}

#[test]
fn test_neither_wins_requires_at_least_one_submission() {
    let mut ts = setup();
    let session_id = 13u32;
    let (player1, player2) = (ts.player1.clone(), ts.player2.clone());

    ts.start_game(session_id, &player1, &player2);

    let result = ts.try_resolve_game(session_id);
    assert_eq!(result, Err(Error::NeitherPlayerSubmitted));
    assert!(ts.hub.ended.is_empty());
    assert!(!ts.contract.get_game(session_id).unwrap().resolved);
}

#[test]
fn test_wrong_public_inputs_rejected() {
    let mut ts = setup();
    let session_id = 20u32;
    let (player1, player2) = (ts.player1.clone(), ts.player2.clone());

    ts.start_game(session_id, &player1, &player2);

    let wrong_pi = vec![0u8; 32];
    let proof = valid_proof();

    let result = ts.try_submit_proof(session_id, &player1, &proof, &wrong_pi);
    assert_eq!(result, Err(Error::PublicInputMismatch));
}

#[test]
fn test_cross_session_replay_rejected() {
    let mut ts = setup();
    let (player1, player2) = (ts.player1.clone(), ts.player2.clone());

    ts.start_game(30u32, &player1, &player2);
    ts.start_game(31u32, &player1, &player2);

    let pi_30 = ts.get_public_inputs(30u32);
    let proof = valid_proof();

    let result = ts.try_submit_proof(31u32, &player1, &proof, &pi_30);
    assert_eq!(result, Err(Error::PublicInputMismatch));
}

#[test]
fn test_cannot_submit_twice() {
    let mut ts = setup();
    let session_id = 40u32;
    let (player1, player2) = (ts.player1.clone(), ts.player2.clone());

    ts.start_game(session_id, &player1, &player2);

    let pi = ts.get_public_inputs(session_id);
    let proof = valid_proof();

    ts.submit_proof(session_id, &player1, &proof, &pi);

    let result = ts.try_submit_proof(session_id, &player1, &proof, &pi);
    assert_eq!(result, Err(Error::AlreadyVerified));
}

#[test]
fn test_cannot_submit_after_resolve() {
    let mut ts = setup();
    let session_id = 41u32;
    let (player1, player2) = (ts.player1.clone(), ts.player2.clone());

    ts.start_game(session_id, &player1, &player2);

    let pi = ts.get_public_inputs(session_id);
    let proof = valid_proof();

    ts.submit_proof(session_id, &player1, &proof, &pi);
    ts.resolve_game(session_id);

    let result = ts.try_submit_proof(session_id, &player2, &proof, &pi);
    assert_eq!(result, Err(Error::GameAlreadyResolved));
}

#[test]
fn test_resolve_is_idempotent() {
    let mut ts = setup();
    let session_id = 42u32;
    let (player1, player2) = (ts.player1.clone(), ts.player2.clone());

    ts.start_game(session_id, &player1, &player2);

    let pi = ts.get_public_inputs(session_id);
    ts.submit_proof(session_id, &player1, &valid_proof(), &pi);

    let first = ts.resolve_game(session_id);
    let second = ts.resolve_game(session_id);
    assert_eq!(first, second, "resolve_game must be idempotent");
    assert_eq!(ts.hub.ended.len(), 1, "the hub hears of a session once");
}

#[test]
#[should_panic(expected = "verify_proof: invalid proof")]
fn test_invalid_proof_traps() {
    let mut ts = setup();
    let session_id = 50u32;
    let (player1, player2) = (ts.player1.clone(), ts.player2.clone());

    ts.start_game(session_id, &player1, &player2);

    let pi = ts.get_public_inputs(session_id);
    let bad_proof = invalid_proof();

    ts.submit_proof(session_id, &player1, &bad_proof, &pi);
}

#[test]
fn test_non_player_cannot_submit() {
    let mut ts = setup();
    let session_id = 60u32;
    let (player1, player2) = (ts.player1.clone(), ts.player2.clone());

    ts.start_game(session_id, &player1, &player2);

    let non_player = generate(&ts.env);
    let pi = ts.get_public_inputs(session_id);
    let proof = valid_proof();

    let result = ts.try_submit_proof(session_id, &non_player, &proof, &pi);
    assert_eq!(result, Err(Error::NotPlayer));
}

#[test]
fn test_multiple_sessions_independent() {
    let mut ts = setup();
    let (player1, player2) = (ts.player1.clone(), ts.player2.clone());
    let player3 = generate(&ts.env);
    let player4 = generate(&ts.env);

    ts.start_game(70u32, &player1, &player2);
    ts.start_game(71u32, &player3, &player4);

    let pi70 = ts.get_public_inputs(70u32);
    let pi71 = ts.get_public_inputs(71u32);
    let proof = valid_proof();

    ts.submit_proof(70u32, &player1, &proof, &pi70);
    ts.submit_proof(71u32, &player4, &proof, &pi71);

    assert_eq!(ts.resolve_game(70u32), Outcome::Player1Won);
    assert_eq!(ts.resolve_game(71u32), Outcome::Player2Won);
    assert_eq!(ts.hub.started, vec![70u32, 71u32]);
}

#[test]
fn test_admin_can_update_verifier() {
    let mut ts = setup();
    let new_verifier = generate(&ts.env);
    ts.contract.set_verifier(new_verifier.clone());
    assert_eq!(ts.contract.get_verifier(), new_verifier);
}

#[test]
fn test_get_verifier_returns_constructor_value() {
    let ts = setup();
    assert_eq!(ts.contract.get_verifier(), ts.verifier_addr);
}
