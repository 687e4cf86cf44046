use vstd::prelude::*;

pub mod errors;
pub mod events;
pub mod laws;
pub mod merkle;
pub mod ops;
pub mod state;

verus! {

/// Number of distribution rounds over the programme's lifetime.
pub const TOTAL_ROUNDS: u8 = 45;

/// Informational reference length of one round in days. Not enforced: the
/// authoritative duration is the `round_len_secs` given at initialization.
pub const ROUND_LEN_DAYS: u64 = 60;

/// Cap of one round, in whole (human-readable) tokens.
pub const PER_ROUND_CAP_HUMAN: u64 = 1_000_000_000;

/// Total distributable supply, in whole (human-readable) tokens.
pub const TOTAL_TOKENS_HUMAN: u64 = 45_000_000_000;

} // verus!
