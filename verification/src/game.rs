//! The record of one session and the steps it can take.
//!
//! A session is opened with two distinct parties and a target, takes at most
//! one accepted proof from each party, and is then resolved once. [`GameView`]
//! is the mathematical model; [`Game`] is the record that is stored.

use crate::target::{derive_target, target_of};
use crate::types::{bytes_equal, Address, Error, Outcome};
use vstd::prelude::*;

verus! {

/// What resolving a session yields.
#[derive(Clone, Copy, Debug, PartialEq, Eq)]
pub struct Resolution {
    /// How the session ended.
    pub outcome: Outcome,
    /// What the hub is to be told: whether the first party won. `None` when
    /// the session had been resolved before, so that the hub hears of each
    /// session once.
    pub report: Option<bool>,
}

/// The model of a session.
pub struct GameView {
    pub player1: Seq<u8>,
    pub player2: Seq<u8>,
    pub player1_points: i128,
    pub player2_points: i128,
    pub target: Seq<u8>,
    pub player1_verified: bool,
    pub player2_verified: bool,
    pub resolved: bool,
}

impl GameView {
    /// A session as it is when opened: no proof accepted, not resolved.
    pub open spec fn opened(
        player1: Seq<u8>,
        player2: Seq<u8>,
        player1_points: i128,
        player2_points: i128,
        target: Seq<u8>,
    ) -> GameView {
        GameView {
            player1,
            player2,
            player1_points,
            player2_points,
            target,
            player1_verified: false,
            player2_verified: false,
            resolved: false,
        }
    }

    /// What holds of every session that was opened and has taken any number
    /// of steps: the parties differ, the target has 32 bytes, and a resolved
    /// session has at least one accepted proof.
    pub open spec fn well_formed(self) -> bool {
        &&& self.player1 != self.player2
        &&& self.target.len() == 32
        &&& self.resolved ==> self.player1_verified || self.player2_verified
    }

    /// Why a proof handed in by `player` with `public_inputs` is refused, or
    /// `None` when it is to be passed on to the verifier.
    pub open spec fn submission_error(self, player: Seq<u8>, public_inputs: Seq<u8>) -> Option<
        Error,
    > {
        if self.resolved {
            Some(Error::GameAlreadyResolved)
        } else if player != self.player1 && player != self.player2 {
            Some(Error::NotPlayer)
        } else if player == self.player1 && self.player1_verified {
            Some(Error::AlreadyVerified)
        } else if player == self.player2 && self.player2_verified {
            Some(Error::AlreadyVerified)
        } else if public_inputs != self.target {
            Some(Error::PublicInputMismatch)
        } else {
            None
        }
    }

    /// The session after a proof of `player` was accepted.
    pub open spec fn accepted(self, player: Seq<u8>) -> GameView {
        if player == self.player1 {
            GameView { player1_verified: true, ..self }
        } else {
            GameView { player2_verified: true, ..self }
        }
    }

    /// The session after a proof handed in by `player` with `public_inputs`
    /// has passed the verifier: marked where the submission is in order,
    /// unchanged where it is refused.
    pub open spec fn submitted(self, player: Seq<u8>, public_inputs: Seq<u8>) -> GameView {
        if self.submission_error(player, public_inputs) is None {
            self.accepted(player)
        } else {
            self
        }
    }

    /// How the session ends, given the proofs accepted so far.
    pub open spec fn outcome(self) -> Outcome {
        Outcome::of(self.player1_verified, self.player2_verified)
    }

    /// Whether the session can be resolved now or has been already.
    pub open spec fn resolvable(self) -> bool {
        self.resolved || self.player1_verified || self.player2_verified
    }

    /// What resolving the session yields.
    pub open spec fn resolution(self) -> Result<Resolution, Error> {
        if self.resolved {
            Ok(Resolution { outcome: self.outcome(), report: None })
        } else if self.resolvable() {
            Ok(Resolution { outcome: self.outcome(), report: Some(self.outcome().player1_won()) })
        } else {
            Err(Error::NeitherPlayerSubmitted)
        }
    }

    /// The session after an attempt to resolve it.
    pub open spec fn after_resolve(self) -> GameView {
        GameView { resolved: self.resolvable(), ..self }
    }
}

/// The stored record of one session.
#[derive(Debug, PartialEq, Eq)]
pub struct Game {
    /// The first party.
    pub player1: Address,
    /// The second party.
    pub player2: Address,
    /// The stake of the first party, as the hub was told.
    pub player1_points: i128,
    /// The stake of the second party, as the hub was told.
    pub player2_points: i128,
    /// The value that the public inputs of every proof must equal.
    pub target_public_inputs: [u8; 32],
    /// Whether a proof of the first party was accepted.
    pub player1_verified: bool,
    /// Whether a proof of the second party was accepted.
    pub player2_verified: bool,
    /// Whether the session was resolved.
    pub resolved: bool,
}

impl View for Game {
    type V = GameView;

    open spec fn view(&self) -> GameView {
        GameView {
            player1: self.player1@,
            player2: self.player2@,
            player1_points: self.player1_points,
            player2_points: self.player2_points,
            target: self.target_public_inputs@,
            player1_verified: self.player1_verified,
            player2_verified: self.player2_verified,
            resolved: self.resolved,
        }
    }
}

impl Clone for Game {
    fn clone(&self) -> (copy: Self)
        ensures
            copy@ == self@,
    {
        Game {
            player1: self.player1.clone(),
            player2: self.player2.clone(),
            player1_points: self.player1_points,
            player2_points: self.player2_points,
            target_public_inputs: self.target_public_inputs,
            player1_verified: self.player1_verified,
            player2_verified: self.player2_verified,
            resolved: self.resolved,
        }
    }
}

impl Game {
    /// Opens a session between two distinct parties on a target that the
    /// caller supplies.
    pub fn new(
        player1: Address,
        player2: Address,
        player1_points: i128,
        player2_points: i128,
        target: [u8; 32],
    ) -> (game: Game)
        requires
            player1@ != player2@,
        ensures
            game@ == GameView::opened(
                player1@,
                player2@,
                player1_points,
                player2_points,
                target@,
            ),
            game@.well_formed(),
    {
        Game {
            player1,
            player2,
            player1_points,
            player2_points,
            target_public_inputs: target,
            player1_verified: false,
            player2_verified: false,
            resolved: false,
        }
    }

    /// Opens the session `session_id` between two distinct parties on the
    /// target derived from the three.
    pub fn start(
        session_id: u32,
        player1: Address,
        player2: Address,
        player1_points: i128,
        player2_points: i128,
    ) -> (game: Game)
        requires
            player1@ != player2@,
            4 + player1@.len() + player2@.len() <= u32::MAX,
        ensures
            game@ == GameView::opened(
                player1@,
                player2@,
                player1_points,
                player2_points,
                target_of(session_id, player1@, player2@),
            ),
            game@.well_formed(),
    {
        let target = derive_target(session_id, &player1, &player2);
        Game::new(player1, player2, player1_points, player2_points, target)
    }

    /// Decides whether a proof handed in by `player` with `public_inputs` is
    /// to be passed on to the verifier. The session is not changed.
    pub fn check_submission(&self, player: &Address, public_inputs: &Vec<u8>) -> (checked: Result<
        (),
        Error,
    >)
        ensures
            checked == match self@.submission_error(player@, public_inputs@) {
                Some(error) => Err::<(), Error>(error),
                None => Ok::<(), Error>(()),
            },
    {
        if self.resolved {
            return Err(Error::GameAlreadyResolved);
        }
        let is_player1 = player.same_as(&self.player1);
        let is_player2 = player.same_as(&self.player2);
        if !is_player1 && !is_player2 {
            return Err(Error::NotPlayer);
        }
        if is_player1 && self.player1_verified {
            return Err(Error::AlreadyVerified);
        }
        if is_player2 && self.player2_verified {
            return Err(Error::AlreadyVerified);
        }
        if !bytes_equal(public_inputs.as_slice(), self.target_public_inputs.as_slice()) {
            return Err(Error::PublicInputMismatch);
        }
        Ok(())
    }

    /// Records that the verifier accepted the proof that `player` handed in
    /// with `public_inputs`. A submission that is not in order is refused and
    /// leaves the session as it was.
    pub fn submit_proof(&mut self, player: &Address, public_inputs: &Vec<u8>) -> (submitted: Result<
        (),
        Error,
    >)
        ensures
            submitted == match old(self)@.submission_error(player@, public_inputs@) {
                Some(error) => Err::<(), Error>(error),
                None => Ok::<(), Error>(()),
            },
            final(self)@ == old(self)@.submitted(player@, public_inputs@),
    {
        match self.check_submission(player, public_inputs) {
            Err(error) => Err(error),
            Ok(()) => {
                if player.same_as(&self.player1) {
                    self.player1_verified = true;
                } else {
                    self.player2_verified = true;
                }
                Ok(())
            },
        }
    }

    /// How the session ends, given the proofs accepted so far.
    pub fn outcome(&self) -> (outcome: Outcome)
        ensures
            outcome == self@.outcome(),
    {
        if self.player1_verified && self.player2_verified {
            Outcome::BothWon
        } else if self.player1_verified {
            Outcome::Player1Won
        } else if self.player2_verified {
            Outcome::Player2Won
        } else {
            Outcome::NeitherWon
        }
    }

    /// Resolves the session. The first resolution needs an accepted proof and
    /// carries the report for the hub; a later one returns the same outcome
    /// and no report.
    pub fn resolve(&mut self) -> (resolved: Result<Resolution, Error>)
        ensures
            resolved == old(self)@.resolution(),
            final(self)@ == old(self)@.after_resolve(),
    {
        let outcome = self.outcome();
        if self.resolved {
            return Ok(Resolution { outcome, report: None });
        }
        if !self.player1_verified && !self.player2_verified {
            return Err(Error::NeitherPlayerSubmitted);
        }
        self.resolved = true;
        Ok(Resolution { outcome, report: Some(outcome.player1_won()) })
    }
}

} // verus!
