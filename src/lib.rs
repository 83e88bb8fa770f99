//! Relays signed price-feed payloads to an on-chain contract entry point.
//!
//! The library builds the entry-function calls (feed identifiers, canonically encoded
//! arguments, the contract's one-time initialization), decides each step of a submission
//! (fresh sequence number, signing, dry run, submission), and reads the payload tool's
//! output. Network, signing and process I/O are left to the caller.

use vstd::prelude::*;

pub mod address;
pub mod builder;
pub mod encoding;
pub mod feed;
pub mod plan;
pub mod relayer;
pub mod source;
pub mod submit;

verus! {

} // verus!
