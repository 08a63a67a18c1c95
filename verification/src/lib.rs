//! Instruction-context fixtures for a Solana program test harness: the
//! conversions between the wire form of a fixture and the runtime form of an
//! instruction context, and the byte streams that fingerprint a fixture.
use vstd::prelude::*;

pub mod keccak;
pub mod instr_account;
pub mod runtime;
pub mod context;

verus! {

} // verus!
