//! The contract: its configuration and its sessions.
//!
//! [`ContractView`] is the mathematical model of the whole state, with the
//! effect of every operation as a function on it; [`EatherGridContract`]
//! holds the state and performs the operations.

use crate::game::{Game, GameView, Resolution};
use crate::target::target_of;
use crate::types::{Address, Error};
use std::collections::HashMap;
use vstd::prelude::*;

verus! {

broadcast use vstd::std_specs::hash::group_hash_axioms;

/// The model of the contract state.
#[verifier::ext_equal]
pub struct ContractView {
    /// The identity that may change the configuration.
    pub admin: Seq<u8>,
    /// The hub that sessions are registered with and reported to.
    pub game_hub: Seq<u8>,
    /// The verifier that proofs are passed on to.
    pub verifier: Seq<u8>,
    /// The sessions, by identifier.
    pub games: Map<u32, GameView>,
}

impl ContractView {
    /// Whether every session is well formed.
    pub open spec fn well_formed(self) -> bool {
        forall|session_id: u32| #[trigger]
            self.games.contains_key(session_id) ==> self.games[session_id].well_formed()
    }

    /// The state after the session `session_id` was opened on `target`. A
    /// session stored under the same identifier before is replaced.
    pub open spec fn started(
        self,
        session_id: u32,
        player1: Seq<u8>,
        player2: Seq<u8>,
        player1_points: i128,
        player2_points: i128,
        target: Seq<u8>,
    ) -> ContractView {
        ContractView {
            games: self.games.insert(
                session_id,
                GameView::opened(player1, player2, player1_points, player2_points, target),
            ),
            ..self
        }
    }

    /// Why a proof handed in for the session `session_id` is refused, or
    /// `None` when it is to be passed on to the verifier.
    pub open spec fn submission_error(
        self,
        session_id: u32,
        player: Seq<u8>,
        public_inputs: Seq<u8>,
    ) -> Option<Error> {
        if self.games.contains_key(session_id) {
            self.games[session_id].submission_error(player, public_inputs)
        } else {
            Some(Error::GameNotFound)
        }
    }

    /// The state after a proof handed in for the session `session_id` has
    /// passed the verifier.
    pub open spec fn submitted(
        self,
        session_id: u32,
        player: Seq<u8>,
        public_inputs: Seq<u8>,
    ) -> ContractView {
        if self.games.contains_key(session_id) {
            ContractView {
                games: self.games.insert(
                    session_id,
                    self.games[session_id].submitted(player, public_inputs),
                ),
                ..self
            }
        } else {
            self
        }
    }

    /// What resolving the session `session_id` yields.
    pub open spec fn resolution(self, session_id: u32) -> Result<Resolution, Error> {
        if self.games.contains_key(session_id) {
            self.games[session_id].resolution()
        } else {
            Err(Error::GameNotFound)
        }
    }

    /// The state after an attempt to resolve the session `session_id`.
    pub open spec fn after_resolve(self, session_id: u32) -> ContractView {
        if self.games.contains_key(session_id) {
            ContractView {
                games: self.games.insert(session_id, self.games[session_id].after_resolve()),
                ..self
            }
        } else {
            self
        }
    }
}

/// The state of the contract.
pub struct EatherGridContract {
    admin: Address,
    game_hub: Address,
    verifier: Address,
    games: HashMap<u32, Game>,
}

impl View for EatherGridContract {
    type V = ContractView;

    closed spec fn view(&self) -> ContractView {
        ContractView {
            admin: self.admin@,
            game_hub: self.game_hub@,
            verifier: self.verifier@,
            games: views(self.games@),
        }
    }
}

/// The models of the stored sessions.
spec fn views(games: Map<u32, Game>) -> Map<u32, GameView> {
    Map::new(|session_id: u32| games.contains_key(session_id), |session_id: u32| games[session_id]@)
}

impl EatherGridContract {
    #[verifier::type_invariant]
    spec fn sessions_well_formed(self) -> bool {
        self@.well_formed()
    }

    /// A contract with the given configuration and no session.
    pub fn new(admin: Address, game_hub: Address, verifier: Address) -> (contract: Self)
        ensures
            contract@ == (ContractView {
                admin: admin@,
                game_hub: game_hub@,
                verifier: verifier@,
                games: Map::empty(),
            }),
    {
        let contract = EatherGridContract { admin, game_hub, verifier, games: HashMap::new() };
        contract
    }

    /// Stores `game` under `session_id`.
    fn put(&mut self, session_id: u32, game: Game)
        requires
            game@.well_formed(),
        ensures
            final(self)@ == (ContractView {
                games: old(self)@.games.insert(session_id, game@),
                ..old(self)@
            }),
    {
        proof {
            use_type_invariant(&*self);
        }
        let mut games: HashMap<u32, Game> = HashMap::new();
        std::mem::swap(&mut self.games, &mut games);
        games.insert(session_id, game);
        assert(views(games@) =~= old(self)@.games.insert(session_id, game@));
        std::mem::swap(&mut self.games, &mut games);
    }

    /// The session stored under `session_id`, if there is one.
    fn find(&self, session_id: u32) -> (found: Option<&Game>)
        ensures
            match found {
                Some(game) => self@.games.contains_key(session_id) && game@
                    == self@.games[session_id] && game@.well_formed(),
                None => !self@.games.contains_key(session_id),
            },
    {
        proof {
            use_type_invariant(self);
        }
        self.games.get(&session_id)
    }

    /// Opens the session `session_id` between two distinct parties on a
    /// target that the caller supplies. The caller has registered the session
    /// with the hub before.
    pub fn start_game_with_target(
        &mut self,
        session_id: u32,
        player1: Address,
        player2: Address,
        player1_points: i128,
        player2_points: i128,
        target: [u8; 32],
    ) -> (started: Result<(), Error>)
        requires
            player1@ != player2@,
        ensures
            started == Ok::<(), Error>(()),
            final(self)@ == old(self)@.started(
                session_id,
                player1@,
                player2@,
                player1_points,
                player2_points,
                target@,
            ),
    {
        let game = Game::new(player1, player2, player1_points, player2_points, target);
        self.put(session_id, game);
        Ok(())
    }

    /// Opens the session `session_id` between two distinct parties on the
    /// target derived from the three. The caller has registered the session
    /// with the hub before.
    pub fn start_game(
        &mut self,
        session_id: u32,
        player1: Address,
        player2: Address,
        player1_points: i128,
        player2_points: i128,
    ) -> (started: Result<(), Error>)
        requires
            player1@ != player2@,
            4 + player1@.len() + player2@.len() <= u32::MAX,
        ensures
            started == Ok::<(), Error>(()),
            final(self)@ == old(self)@.started(
                session_id,
                player1@,
                player2@,
                player1_points,
                player2_points,
                target_of(session_id, player1@, player2@),
            ),
    {
        let game = Game::start(session_id, player1, player2, player1_points, player2_points);
        self.put(session_id, game);
        Ok(())
    }

    /// Decides whether a proof handed in by `player` with `public_inputs` for
    /// the session `session_id` is to be passed on to the verifier. Nothing is
    /// changed.
    pub fn check_submission(
        &self,
        session_id: u32,
        player: &Address,
        public_inputs: &Vec<u8>,
    ) -> (checked: Result<(), Error>)
        ensures
            checked == match self@.submission_error(session_id, player@, public_inputs@) {
                Some(error) => Err::<(), Error>(error),
                None => Ok::<(), Error>(()),
            },
    {
        match self.find(session_id) {
            None => Err(Error::GameNotFound),
            Some(game) => game.check_submission(player, public_inputs),
        }
    }

    /// Records that the verifier accepted the proof that `player` handed in
    /// with `public_inputs` for the session `session_id`. A submission that is
    /// not in order is refused and changes nothing.
    pub fn submit_proof(
        &mut self,
        session_id: u32,
        player: &Address,
        public_inputs: &Vec<u8>,
    ) -> (submitted: Result<(), Error>)
        ensures
            submitted == match old(self)@.submission_error(session_id, player@, public_inputs@) {
                Some(error) => Err::<(), Error>(error),
                None => Ok::<(), Error>(()),
            },
            final(self)@ == old(self)@.submitted(session_id, player@, public_inputs@),
    {
        let mut game = match self.find(session_id) {
            None => {
                return Err(Error::GameNotFound);
            },
            Some(game) => game.clone(),
        };
        match game.submit_proof(player, public_inputs) {
            Err(error) => {
                Err(error)
            },
            Ok(()) => {
                self.put(session_id, game);
                Ok(())
            },
        }
    }

    /// Resolves the session `session_id`. The first resolution needs an
    /// accepted proof and carries the report for the hub; a later one returns
    /// the same outcome and no report.
    pub fn resolve_game(&mut self, session_id: u32) -> (resolved: Result<Resolution, Error>)
        ensures
            resolved == old(self)@.resolution(session_id),
            final(self)@ == old(self)@.after_resolve(session_id),
    {
        let mut game = match self.find(session_id) {
            None => {
                return Err(Error::GameNotFound);
            },
            Some(game) => game.clone(),
        };
        match game.resolve() {
            Err(error) => {
                Err(error)
            },
            Ok(resolution) => {
                if resolution.report.is_some() {
                    self.put(session_id, game);
                } else {
                }
                Ok(resolution)
            },
        }
    }

    /// The record of the session `session_id`.
    pub fn get_game(&self, session_id: u32) -> (found: Result<Game, Error>)
        ensures
            match found {
                Ok(game) => self@.games.contains_key(session_id) && game@
                    == self@.games[session_id] && game@.well_formed(),
                Err(error) => !self@.games.contains_key(session_id) && error
                    == Error::GameNotFound,
            },
    {
        match self.find(session_id) {
            None => Err(Error::GameNotFound),
            Some(game) => Ok(game.clone()),
        }
    }

    /// The target of the session `session_id`: the value that the public
    /// inputs of a proof for it must equal.
    pub fn get_target(&self, session_id: u32) -> (found: Result<[u8; 32], Error>)
        ensures
            match found {
                Ok(target) => self@.games.contains_key(session_id) && target@
                    == self@.games[session_id].target,
                Err(error) => !self@.games.contains_key(session_id) && error
                    == Error::GameNotFound,
            },
    {
        match self.find(session_id) {
            None => Err(Error::GameNotFound),
            Some(game) => Ok(game.target_public_inputs),
        }
    }

    /// The identity that may change the configuration.
    pub fn get_admin(&self) -> (admin: Address)
        ensures
            admin@ == self@.admin,
    {
        self.admin.clone()
    }

    /// Hands the administration over to `new_admin`. The caller has made sure
    /// that the present administrator authorised this.
    pub fn set_admin(&mut self, new_admin: Address)
        ensures
            final(self)@ == (ContractView { admin: new_admin@, ..old(self)@ }),
    {
        proof {
            use_type_invariant(&*self);
        }
        self.admin = new_admin;
    }

    /// The hub that sessions are registered with and reported to.
    pub fn get_hub(&self) -> (hub: Address)
        ensures
            hub@ == self@.game_hub,
    {
        self.game_hub.clone()
    }

    /// Replaces the hub. The caller has made sure that the administrator
    /// authorised this.
    pub fn set_hub(&mut self, new_hub: Address)
        ensures
            final(self)@ == (ContractView { game_hub: new_hub@, ..old(self)@ }),
    {
        proof {
            use_type_invariant(&*self);
        }
        self.game_hub = new_hub;
    }

    /// The verifier that proofs are passed on to.
    pub fn get_verifier(&self) -> (verifier: Address)
        ensures
            verifier@ == self@.verifier,
    {
        self.verifier.clone()
    }

    /// Replaces the verifier. The caller has made sure that the administrator
    /// authorised this.
    pub fn set_verifier(&mut self, new_verifier: Address)
        ensures
            final(self)@ == (ContractView { verifier: new_verifier@, ..old(self)@ }),
    {
        proof {
            use_type_invariant(&*self);
        }
        self.verifier = new_verifier;
    }
}

} // verus!
