//! A two-player battleship game whose moves are checked by zero-knowledge
//! proofs.
//!
//! The boards and the results of shots stay with the players. What the ledger
//! holds is a record of the game, and every operation on it is a function of
//! the record, the authenticated caller and the caller's data: it gives the new
//! record, or the reason for which the call is rejected.
//!
//! - [`endian`] and [`curve`] turn bytes into what the pairing arithmetic
//!   reads, and negate a point;
//! - [`groth16`] checks a proof against a verifying key and public inputs;
//! - [`keys`] holds the verifying keys of the two circuits of the game;
//! - [`player`] and [`payload`] are the identities of callers and what they hand
//!   in;
//! - [`model`] is the game as a state machine over plain values, and [`laws`]
//!   what holds of it;
//! - [`game`] is the record with the operations on it, and [`instructions`]
//!   the operations that ask first who calls;
//! - [`errors`] lists the reasons for a rejection.

pub mod curve;
pub mod endian;
pub mod errors;
pub mod game;
pub mod groth16;
pub mod instructions;
pub mod keys;
pub mod laws;
pub mod model;
pub mod payload;
pub mod player;
