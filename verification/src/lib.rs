//! Streaming Bitcoin transaction-signing session for a hardware signer.
//!
//! The signer holds the private keys and has too little RAM to buffer a whole
//! transaction, so a transaction is signed over a request/response protocol
//! with an untrusted host: the signer announces which record it wants next,
//! the host streams it, and the signer accumulates BIP143 pre-commitments in a
//! first pass over the inputs, verifies every input's previous transaction by
//! re-hashing it on the fly, confirms the outputs with the user, and finally
//! produces one signature per input in a second pass.
//!
//! The session logic is a state machine: [`session::Session`] consumes one
//! [`session::Event`] at a time (a host message, or the result of a native
//! keystore/UI call) and returns the next [`session::Action`] for the driver
//! to perform. The driver performs the blocking work — the host round-trips
//! and the native signing primitives — and feeds the results back in, so that
//! every decision of the protocol is made here and is verified.

pub mod encode;
pub mod laws;
pub mod model;
pub mod session;
pub mod sha256;
pub mod types;
