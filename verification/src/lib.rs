//! The royalty and event core of a CEP-78 NFT contract: a two-tier
//! royalty registry (per-token override with collection-wide fallback)
//! behind a single-installer access gate, deterministic fixed-point
//! royalty arithmetic over 256-bit amounts, and the typed event taxonomy
//! with its deterministic wire serialization. The host-facing storage and
//! cross-contract glue lives outside the library and hands in plain
//! values.

pub mod arithmetic;
pub mod decimal;
pub mod error;
pub mod events;
pub mod package;
pub mod registry;

use vstd::prelude::*;

verus! {

/// One hundred percent, in basis points: the largest fee a royalty record
/// may carry.
pub const MAX_BASIS_POINTS: u16 = 10000;

} // verus!
