//! Core logic of a proof-gated payment relay.
//!
//! A client proves correct execution of a program, sends the proof together
//! with a recipient address to a relay, and the relay pays a fixed token
//! amount to that address if and only if the proof verifies against the
//! public parameters the relay loaded at startup.
//!
//! The proof engine and the ledger client are opaque collaborators: the
//! library decides, they act.  Every decision — the artifact store codec, the
//! submission wire codec, the verification gate, the payout state machine and
//! the classification of ledger receipts — lives here, verified.  The
//! surrounding process (HTTP, disk, RPC) drives these functions and performs
//! the commands they emit.

pub mod artifact;
pub mod balance;
pub mod client;
pub mod gateway;
pub mod laws;
pub mod payout;
pub mod submit;
