//! A test AMM pool that swaps wPi for the network's USDC at a fixed rate.
//!
//! The pool's entry points are written as decisions: given the arguments of an
//! invocation and the host's replies so far, each says what the pool does
//! next, which is to put one more call to its host, to return, or to trap. The
//! contract that runs on a ledger performs the calls and hands the replies
//! back.

pub mod address;
pub mod dialogues;
pub mod error;
pub mod host;
pub mod laws;
pub mod outcomes;
pub mod pool;
pub mod pricing;
pub mod runs;
pub mod storage;
pub mod world;
