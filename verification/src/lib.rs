//! A custodial staking ledger: deposits of fungible tokens are locked in a
//! program-controlled vault for a chosen period, accrue a time-weighted
//! reward, and are paid back (principal plus reward) once the lock matures.
//!
//! The crate holds the pure core of the program: the fixed-layout account
//! codec, the instruction decoder, the reward engine, the authorization
//! checks, and the state machine that combines them.  Every operation is a
//! function from the persisted record and the host-supplied facts (the
//! clock, the record's owner, signer and rent status) to either a typed
//! error or an effect: the token transfer to request and the record to
//! persist afterwards.  The host environment that owns the account buffers,
//! reads the clock and performs the transfer sits outside this crate and
//! applies the effect.

pub mod auth;
pub mod codec;
pub mod error;
pub mod instruction;
pub mod machine;
pub mod reward;
