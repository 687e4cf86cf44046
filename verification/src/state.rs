use vstd::prelude::*;

verus! {

/// A 32-byte ledger address, as used for signers, token mints and
/// token-holding accounts alike.
pub type Pubkey = [u8; 32];

/// The programme's global configuration record. Created once by
/// `initialize`; afterwards only `publisher` and `paused` ever change,
/// and only through the governance operations.
#[derive(Clone, Copy, Debug, PartialEq, Eq)]
pub struct HeroRewardsState {
    /// Administrative identity: may replace the publisher and flip the pause switch.
    pub governance: Pubkey,
    /// Identifier of the reward token.
    pub mint_lux: Pubkey,
    /// The programme-controlled token account all payouts are drawn from.
    pub vault_lux: Pubkey,
    /// Launch timestamp, seconds since the epoch.
    pub tge_ts: i64,
    /// Length of one round in seconds.
    pub round_len_secs: i64,
    /// Number of rounds; always `TOTAL_ROUNDS`.
    pub total_rounds: u8,
    /// Total distributable supply in base units.
    pub total_units: u128,
    /// Cap of one round in base units.
    pub per_round_cap: u128,
    /// Identity allowed to commit a round's winner list.
    pub publisher: Pubkey,
    /// Administrative halt: while set, no root may be posted and no claim
    /// paid, though funding may still arrive.
    pub paused: bool,
}

/// One round's record, created when its winners root is committed.
#[derive(Clone, Copy, Debug, PartialEq, Eq)]
pub struct RoundState {
    /// The round number this record belongs to.
    pub round: u8,
    /// Commitment root summarising the round's winner list.
    pub root: [u8; 32],
    /// Total allocation declared for the round.
    pub total: u64,
    /// Sum paid out so far; never exceeds `total` and never decreases.
    pub claimed_amount: u64,
    /// Set once a winners root has been committed.
    pub distribution_started: bool,
    /// Set once the round is closed; no further claims are accepted.
    pub distribution_finished: bool,
}

impl RoundState {
    /// What always holds of a stored round record: payouts never pass the
    /// declared total.
    pub open spec fn wf(self) -> bool {
        self.claimed_amount <= self.total
    }
}

/// The per-leaf record, keyed by (round, leaf index): whether a payout has
/// been made for that leaf.
#[derive(Clone, Copy, Debug, PartialEq, Eq, Structural)]
pub struct ClaimState {
    /// Whether a payout has been recorded for this leaf.
    pub claimed: bool,
}

} // verus!
