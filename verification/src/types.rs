//! Identities, errors and outcomes.

use vstd::prelude::*;

verus! {

/// A party or service, identified by the bytes of its address string.
///
/// Two identities are the same exactly when their address strings are.
#[derive(Debug, PartialEq, Eq)]
pub struct Address {
    strkey: Vec<u8>,
}

impl View for Address {
    type V = Seq<u8>;

    closed spec fn view(&self) -> Seq<u8> {
        self.strkey@
    }
}

impl Clone for Address {
    fn clone(&self) -> (copy: Self)
        ensures
            copy@ == self@,
    {
        Address { strkey: self.strkey.clone() }
    }
}

impl Address {
    /// The identity with the given address string.
    pub fn from_strkey(strkey: Vec<u8>) -> (address: Address)
        ensures
            address@ == strkey@,
    {
        Address { strkey }
    }

    /// The bytes of the address string.
    pub fn strkey(&self) -> (strkey: &Vec<u8>)
        ensures
            strkey@ == self@,
    {
        &self.strkey
    }

    /// Whether `self` and `other` are the same identity.
    pub fn same_as(&self, other: &Address) -> (same: bool)
        ensures
            same == (self@ == other@),
    {
        bytes_equal(self.strkey.as_slice(), other.strkey.as_slice())
    }
}

/// Whether two byte strings have the same length and the same bytes.
pub fn bytes_equal(left: &[u8], right: &[u8]) -> (equal: bool)
    ensures
        equal == (left@ == right@),
{
    if left.len() != right.len() {
        return false;
    }
    let mut i: usize = 0;
    while i < left.len()
        invariant
            i <= left.len(),
            left.len() == right.len(),
            forall|j: int| 0 <= j < i ==> left@[j] == right@[j],
        decreases left.len() - i,
    {
        if left[i] != right[i] {
            return false;
        }
        i += 1;
    }
    assert(left@ =~= right@);
    true
}

/// Why an operation on a session was refused.
#[derive(Clone, Copy, Debug, PartialEq, Eq, Structural)]
pub enum Error {
    /// No session is stored under the given identifier.
    GameNotFound,
    /// The caller is neither of the two parties of the session.
    NotPlayer,
    /// The party has already had a proof accepted in this session.
    AlreadyVerified,
    /// Resolution was asked for before any proof was accepted.
    NeitherPlayerSubmitted,
    /// The session has been resolved; no further proofs are taken.
    GameAlreadyResolved,
    /// The public inputs differ from the target of the session.
    PublicInputMismatch,
}

impl Error {
    /// The numeric code under which the error is reported on the wire.
    pub open spec fn spec_code(self) -> u32 {
        match self {
            Error::GameNotFound => 1,
            Error::NotPlayer => 2,
            Error::AlreadyVerified => 3,
            Error::NeitherPlayerSubmitted => 4,
            Error::GameAlreadyResolved => 5,
            Error::PublicInputMismatch => 6,
        }
    }

    /// The numeric code under which the error is reported on the wire.
    #[verifier::when_used_as_spec(spec_code)]
    pub fn code(self) -> (code: u32)
        ensures
            code == self.spec_code(),
    {
        match self {
            Error::GameNotFound => 1,
            Error::NotPlayer => 2,
            Error::AlreadyVerified => 3,
            Error::NeitherPlayerSubmitted => 4,
            Error::GameAlreadyResolved => 5,
            Error::PublicInputMismatch => 6,
        }
    }
}

/// How a resolved session ended.
#[derive(Clone, Copy, Debug, PartialEq, Eq, Structural)]
pub enum Outcome {
    /// Only the first party had a proof accepted.
    Player1Won,
    /// Only the second party had a proof accepted.
    Player2Won,
    /// Both parties had a proof accepted.
    BothWon,
    /// Neither party had a proof accepted.
    NeitherWon,
}

impl Outcome {
    /// The outcome that follows from which parties had a proof accepted.
    pub open spec fn of(player1_verified: bool, player2_verified: bool) -> Outcome {
        if player1_verified && player2_verified {
            Outcome::BothWon
        } else if player1_verified {
            Outcome::Player1Won
        } else if player2_verified {
            Outcome::Player2Won
        } else {
            Outcome::NeitherWon
        }
    }

    /// Whether the hub, which records one winner, is told that the first
    /// party won: when it alone won, and by convention when both did. An
    /// outcome without a winner is never reported, since a session resolves
    /// only with an accepted proof.
    pub open spec fn spec_player1_won(self) -> bool {
        self == Outcome::Player1Won || self == Outcome::BothWon
    }

    /// Whether the hub is told that the first party won.
    #[verifier::when_used_as_spec(spec_player1_won)]
    pub fn player1_won(self) -> (won: bool)
        ensures
            won == self.spec_player1_won(),
    {
        match self {
            Outcome::Player1Won => true,
            Outcome::BothWon => true,
            Outcome::Player2Won => false,
            Outcome::NeitherWon => false,
        }
    }
}

} // verus!
