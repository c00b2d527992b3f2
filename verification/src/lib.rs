//! Session management for zero-knowledge proofs over an arithmetic circuit.
//!
//! The crate holds the parts of a proving session that do not depend on a
//! particular proving engine:
//!
//! * [`inputs`] holds the named integer sequences a caller wants proved;
//! * [`encoder`] turns caller-supplied integers and raw bytes into the
//!   arbitrary-precision signal values a circuit consumes;
//! * [`codec`] frames proving keys, proofs and public inputs as byte buffers
//!   and parses them back;
//! * [`session`] is the session state machine: it decides what the proving
//!   engine is asked to do and what the caller gets back;
//! * [`error`] names what can go wrong.
//!
//! The proving engine itself runs outside this crate. Each session operation
//! is split into a step that produces a request for the engine and a step that
//! consumes the engine's answer.

pub mod codec;
pub mod encoder;
pub mod error;
pub mod inputs;
pub mod session;

pub use crate::error::FFIError;
pub use crate::error::MoproError;
pub use crate::session::GenerateProofResult;
pub use crate::session::MoproCircom;
pub use crate::session::SetupResult;

use vstd::prelude::*;

verus! {

/// Adds two numbers whose sum fits in a `u32`.
pub fn add(a: u32, b: u32) -> (sum: u32)
    requires
        a + b <= u32::MAX,
    ensures
        sum == a + b,
{
    a + b
}

/// The greeting used to check that the library is reachable.
pub fn hello() -> (greeting: String)
    ensures
        greeting@ == "Hello World from Rust"@,
{
    "Hello World from Rust".to_string()
}

/// Prepares the process for proving sessions. There is no global state to
/// prepare, so this always succeeds.
pub fn init_circom_state() -> (outcome: Result<(), MoproError>)
    ensures
        outcome == Ok::<(), MoproError>(()),
{
    Ok(())
}

} // verus!
