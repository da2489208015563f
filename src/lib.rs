//! Verification of DCAP attestation quotes: decoding of the binary quote,
//! certificate-chain checks, TCB level matching and the final verdict.

pub mod codec;
pub mod quote;
pub mod tcb;
pub mod chain;
pub mod verify;
pub mod json;
pub mod tables;
pub mod collateral;
pub mod pck;
pub mod crypto;
pub mod der;
