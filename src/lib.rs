//! A Feistel-network block cipher whose round function is a keyed SHA-256,
//! and a byte-level word counter.
use vstd::prelude::*;

pub mod feistel;
pub mod laws;
pub mod wc;

verus! {

} // verus!
