//! Session state machine for a two-player proof contest.
//!
//! Two parties open a session that is bound to a 32-byte public target. Each
//! party may then hand in one proof that refers to exactly that target; once
//! at least one proof has been accepted the session can be resolved, and the
//! outcome is reported to the game hub a single time.
//!
//! The crate holds the rules only. Proof checking, the game hub, caller
//! authentication and durable storage are services of the host: the caller
//! performs them and tells the state machine what happened. Every operation
//! therefore either changes the state in the way its contract states, or
//! returns an error and leaves the state as it was.
//!
//! Outcomes follow the binary policy: a party has either had a proof accepted
//! or not. When both have, the hub is told that the first party won.
//!
//! - [`types`]: identities, errors and outcomes.
//! - [`target`]: the public target of a session and how it is derived.
//! - [`game`]: the record of one session and the steps it can take.
//! - [`contract`]: the configuration and the sessions of a whole contract.
//! - [`history`]: sequences of operations on a contract.
//! - [`invariants`]: what holds of every session, whatever is done with it.

pub mod contract;
pub mod game;
pub mod history;
pub mod invariants;
pub mod target;
pub mod types;
