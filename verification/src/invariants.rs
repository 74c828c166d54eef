//! What holds of every session, whatever is done with it.

use crate::contract::ContractView;
use crate::game::{GameView, Resolution};
use crate::history::{all_allowed, none_concerns, none_opens, Operation};
use crate::types::{Error, Outcome};
use vstd::prelude::*;

verus! {

/// A session opened between two distinct parties on a target of 32 bytes is
/// well formed, and the two parties of a well-formed session differ.
pub proof fn lemma_opened_session_has_distinct_parties(
    player1: Seq<u8>,
    player2: Seq<u8>,
    player1_points: i128,
    player2_points: i128,
    target: Seq<u8>,
)
    requires
        player1 != player2,
        target.len() == 32,
    ensures
        GameView::opened(player1, player2, player1_points, player2_points, target).well_formed(),
        GameView::opened(player1, player2, player1_points, player2_points, target).player1
            != GameView::opened(player1, player2, player1_points, player2_points, target).player2,
{
}

/// Recording a proof and resolving keep a session well formed, and neither
/// changes its parties, its stakes or its target.
pub proof fn lemma_steps_keep_session(game: GameView, player: Seq<u8>, public_inputs: Seq<u8>)
    requires
        game.well_formed(),
    ensures
        game.submitted(player, public_inputs).well_formed(),
        game.after_resolve().well_formed(),
        same_terms(game, game.submitted(player, public_inputs)),
        same_terms(game, game.after_resolve()),
{
}

/// Whether two states of a session have the same parties, stakes and target.
pub open spec fn same_terms(before: GameView, after: GameView) -> bool {
    &&& after.player1 == before.player1
    &&& after.player2 == before.player2
    &&& after.player1_points == before.player1_points
    &&& after.player2_points == before.player2_points
    &&& after.target == before.target
}

/// Whether `after` has kept every mark of `before`: an accepted proof stays
/// accepted and a resolved session stays resolved.
pub open spec fn keeps_marks(before: GameView, after: GameView) -> bool {
    &&& before.player1_verified ==> after.player1_verified
    &&& before.player2_verified ==> after.player2_verified
    &&& before.resolved ==> after.resolved
}

/// Once a proof of a party has been recorded, a second submission of the
/// same party is refused as already verified, whatever public inputs it
/// brings, and changes nothing.
pub proof fn lemma_second_submission_refused(
    game: GameView,
    player: Seq<u8>,
    public_inputs: Seq<u8>,
    second_inputs: Seq<u8>,
)
    requires
        game.submission_error(player, public_inputs) is None,
    ensures
        game.submitted(player, public_inputs).submission_error(player, second_inputs) == Some(
            Error::AlreadyVerified,
        ),
        game.submitted(player, public_inputs).submitted(player, second_inputs) == game.submitted(
            player,
            public_inputs,
        ),
{
}

/// Public inputs that differ from the target are never accepted: the
/// submission is refused and changes nothing. Where the session is open, the
/// caller is a party and has no proof recorded yet, the refusal is the
/// mismatch of the public inputs.
pub proof fn lemma_wrong_public_inputs_refused(
    game: GameView,
    player: Seq<u8>,
    public_inputs: Seq<u8>,
)
    requires
        public_inputs != game.target,
    ensures
        game.submission_error(player, public_inputs) is Some,
        game.submitted(player, public_inputs) == game,
        !game.resolved && (player == game.player1 && !game.player1_verified || player
            == game.player2 && !game.player2_verified) && game.player1 != game.player2
            ==> game.submission_error(player, public_inputs) == Some(Error::PublicInputMismatch),
{
}

/// Public inputs that are the target of one session are refused by every
/// session with another target, and the attempt changes nothing.
pub proof fn lemma_replay_refused(
    state: ContractView,
    source_id: u32,
    session_id: u32,
    player: Seq<u8>,
)
    requires
        state.games.contains_key(source_id),
        state.games.contains_key(session_id),
        state.games[source_id].target != state.games[session_id].target,
    ensures
        state.submission_error(session_id, player, state.games[source_id].target) is Some,
        state.submitted(session_id, player, state.games[source_id].target) == state,
{
    lemma_wrong_public_inputs_refused(
        state.games[session_id],
        player,
        state.games[source_id].target,
    );
}

/// Resolving a second time yields the outcome of the first time, carries no
/// report for the hub and changes nothing.
pub proof fn lemma_resolve_twice(game: GameView, first: Resolution)
    requires
        game.resolution() == Ok::<Resolution, Error>(first),
    ensures
        game.after_resolve().resolution() == Ok::<Resolution, Error>(
            Resolution { outcome: first.outcome, report: None },
        ),
        game.after_resolve().after_resolve() == game.after_resolve(),
        !game.resolved ==> first.report == Some(first.outcome.player1_won()),
{
}

/// The hub is told of a winner only: a report is made when the session is
/// resolved for the first time, which needs an accepted proof, and says
/// whether the first party is among the winners.
pub proof fn lemma_report_names_a_winner(game: GameView, resolution: Resolution)
    requires
        game.resolution() == Ok::<Resolution, Error>(resolution),
        resolution.report is Some,
    ensures
        !game.resolved,
        resolution.outcome != Outcome::NeitherWon,
        resolution.report == Some(game.player1_verified),
{
}

/// A well-formed session without an accepted proof cannot be resolved, and
/// no well-formed session resolves to an outcome without a winner.
pub proof fn lemma_no_proof_no_resolution(game: GameView)
    requires
        game.well_formed(),
    ensures
        !game.player1_verified && !game.player2_verified ==> game.resolution() == Err::<
            Resolution,
            Error,
        >(Error::NeitherPlayerSubmitted) && game.after_resolve() == game,
        game.resolution() matches Ok(resolution) ==> resolution.outcome != Outcome::NeitherWon,
{
}

/// An operation that is not directed at a session leaves it as it is.
pub proof fn lemma_sessions_independent(
    state: ContractView,
    operation: Operation,
    session_id: u32,
)
    requires
        !operation.concerns(session_id),
    ensures
        state.after(operation).games.contains_key(session_id) == state.games.contains_key(
            session_id,
        ),
        state.games.contains_key(session_id) ==> state.after(operation).games[session_id]
            == state.games[session_id],
{
}

/// A session is untouched by any sequence of operations of which none is
/// directed at it: sessions do not depend on one another, nor on the
/// configuration.
pub proof fn lemma_other_sessions_untouched(
    state: ContractView,
    operations: Seq<Operation>,
    session_id: u32,
)
    requires
        none_concerns(operations, session_id),
    ensures
        state.after_all(operations).games.contains_key(session_id) == state.games.contains_key(
            session_id,
        ),
        state.games.contains_key(session_id) ==> state.after_all(operations).games[session_id]
            == state.games[session_id],
    decreases operations.len(),
{
    if operations.len() > 0 {
        let earlier = operations.drop_last();
        lemma_other_sessions_untouched(state, earlier, session_id);
        lemma_sessions_independent(state.after_all(earlier), operations.last(), session_id);
    }
}

/// Every session stays well formed through any sequence of operations: at
/// every state its two parties differ, and it is resolved only with an
/// accepted proof.
pub proof fn lemma_sessions_stay_well_formed(state: ContractView, operations: Seq<Operation>)
    requires
        state.well_formed(),
        all_allowed(operations),
    ensures
        state.after_all(operations).well_formed(),
    decreases operations.len(),
{
    if operations.len() > 0 {
        let earlier = operations.drop_last();
        lemma_sessions_stay_well_formed(state, earlier);
        assert(operations.last().allowed());
    }
}

/// Through any sequence of operations that does not open the session anew,
/// a session stays stored, keeps its parties, its stakes and its target, and
/// keeps every mark it has.
pub proof fn lemma_session_terms_never_change(
    state: ContractView,
    operations: Seq<Operation>,
    session_id: u32,
)
    requires
        state.games.contains_key(session_id),
        none_opens(operations, session_id),
    ensures
        state.after_all(operations).games.contains_key(session_id),
        same_terms(state.games[session_id], state.after_all(operations).games[session_id]),
        keeps_marks(state.games[session_id], state.after_all(operations).games[session_id]),
    decreases operations.len(),
{
    if operations.len() > 0 {
        let earlier = operations.drop_last();
        lemma_session_terms_never_change(state, earlier, session_id);
    }
}

/// Once a session is resolved, no sequence of operations that does not open
/// it anew changes it: every later resolution yields the same outcome and no
/// report, and every later submission is refused as too late.
pub proof fn lemma_resolved_session_is_final(
    state: ContractView,
    operations: Seq<Operation>,
    session_id: u32,
)
    requires
        state.games.contains_key(session_id),
        state.games[session_id].resolved,
        none_opens(operations, session_id),
    ensures
        state.after_all(operations).games.contains_key(session_id),
        state.after_all(operations).games[session_id] == state.games[session_id],
        state.after_all(operations).resolution(session_id) == Ok::<Resolution, Error>(
            Resolution { outcome: state.games[session_id].outcome(), report: None },
        ),
        forall|player: Seq<u8>, public_inputs: Seq<u8>|
            #[trigger] state.after_all(operations).submission_error(
                session_id,
                player,
                public_inputs,
            ) == Some(Error::GameAlreadyResolved),
    decreases operations.len(),
{
    if operations.len() > 0 {
        let earlier = operations.drop_last();
        lemma_resolved_session_is_final(state, earlier, session_id);
    }
}

/// Once a proof of a party has been recorded, no later submission of that
/// party is accepted, whatever happens in between, unless the session is
/// opened anew: it is refused as already verified while the session is
/// open, and as too late once the session is resolved.
pub proof fn lemma_party_submits_once(
    state: ContractView,
    operations: Seq<Operation>,
    session_id: u32,
    player: Seq<u8>,
    public_inputs: Seq<u8>,
    later_inputs: Seq<u8>,
)
    requires
        state.submission_error(session_id, player, public_inputs) is None,
        none_opens(operations, session_id),
    ensures
        state.submitted(session_id, player, public_inputs).after_all(
            operations,
        ).submission_error(session_id, player, later_inputs) == Some(
            if state.submitted(session_id, player, public_inputs).after_all(
                operations,
            ).games[session_id].resolved {
                Error::GameAlreadyResolved
            } else {
                Error::AlreadyVerified
            },
        ),
{
    let recorded = state.submitted(session_id, player, public_inputs);
    lemma_session_terms_never_change(recorded, operations, session_id);
}

} // verus!
