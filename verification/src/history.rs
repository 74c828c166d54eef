//! Sequences of operations on the contract state.
//!
//! What must hold however long a contract has been in use is stated over
//! these: an [`Operation`] is one call that changes the state, and
//! [`ContractView::after_all`] is the state that a sequence of them leads to.

use crate::contract::ContractView;
use vstd::prelude::*;

verus! {

/// One call that may change the contract state.
pub enum Operation {
    /// A session is opened on a target.
    Start {
        session_id: u32,
        player1: Seq<u8>,
        player2: Seq<u8>,
        player1_points: i128,
        player2_points: i128,
        target: Seq<u8>,
    },
    /// A proof that passed the verifier is recorded.
    Submit { session_id: u32, player: Seq<u8>, public_inputs: Seq<u8> },
    /// A session is resolved.
    Resolve { session_id: u32 },
    /// The administration is handed over.
    SetAdmin { admin: Seq<u8> },
    /// The hub is replaced.
    SetHub { game_hub: Seq<u8> },
    /// The verifier is replaced.
    SetVerifier { verifier: Seq<u8> },
}

impl Operation {
    /// Whether the operation can be asked for: a session is opened between
    /// two distinct parties on a target of 32 bytes.
    pub open spec fn allowed(self) -> bool {
        match self {
            Operation::Start { player1, player2, target, .. } => player1 != player2 && target.len()
                == 32,
            _ => true,
        }
    }

    /// Whether the operation opens the session `session_id`.
    pub open spec fn opens(self, session_id: u32) -> bool {
        match self {
            Operation::Start { session_id: opened, .. } => opened == session_id,
            _ => false,
        }
    }

    /// Whether the operation is directed at the session `session_id`.
    pub open spec fn concerns(self, session_id: u32) -> bool {
        match self {
            Operation::Start { session_id: touched, .. } => touched == session_id,
            Operation::Submit { session_id: touched, .. } => touched == session_id,
            Operation::Resolve { session_id: touched } => touched == session_id,
            _ => false,
        }
    }
}

impl ContractView {
    /// The state after one operation.
    pub open spec fn after(self, operation: Operation) -> ContractView {
        match operation {
            Operation::Start {
                session_id,
                player1,
                player2,
                player1_points,
                player2_points,
                target,
            } => self.started(session_id, player1, player2, player1_points, player2_points, target),
            Operation::Submit { session_id, player, public_inputs } => self.submitted(
                session_id,
                player,
                public_inputs,
            ),
            Operation::Resolve { session_id } => self.after_resolve(session_id),
            Operation::SetAdmin { admin } => ContractView { admin, ..self },
            Operation::SetHub { game_hub } => ContractView { game_hub, ..self },
            Operation::SetVerifier { verifier } => ContractView { verifier, ..self },
        }
    }

    /// The state after a sequence of operations, the first of them first.
    pub open spec fn after_all(self, operations: Seq<Operation>) -> ContractView
        decreases operations.len(),
    {
        if operations.len() == 0 {
            self
        } else {
            self.after_all(operations.drop_last()).after(operations.last())
        }
    }
}

/// Whether every operation of the sequence can be asked for.
pub open spec fn all_allowed(operations: Seq<Operation>) -> bool {
    forall|i: int| 0 <= i < operations.len() ==> (#[trigger] operations[i]).allowed()
}

/// Whether no operation of the sequence opens the session `session_id`.
pub open spec fn none_opens(operations: Seq<Operation>, session_id: u32) -> bool {
    forall|i: int| 0 <= i < operations.len() ==> !(#[trigger] operations[i]).opens(session_id)
}

/// Whether no operation of the sequence is directed at the session
/// `session_id`.
pub open spec fn none_concerns(operations: Seq<Operation>, session_id: u32) -> bool {
    forall|i: int| 0 <= i < operations.len() ==> !(#[trigger] operations[i]).concerns(session_id)
}

} // verus!
