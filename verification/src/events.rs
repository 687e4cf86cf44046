use vstd::prelude::*;

use crate::state::Pubkey;

verus! {

/// Emitted once, when the programme is initialized.
#[derive(Clone, Copy, Debug, PartialEq, Eq)]
pub struct Initialized {
    pub tge_ts: i64,
    pub round_len_secs: i64,
    pub total_rounds: u8,
    pub total_units: u128,
    pub publisher: Pubkey,
}

/// Emitted when the vault receives funding.
#[derive(Clone, Copy, Debug, PartialEq, Eq)]
pub struct Prefunded {
    pub amount: u64,
    pub vault: Pubkey,
}

/// Emitted when a round's winners root is committed.
#[derive(Clone, Copy, Debug, PartialEq, Eq)]
pub struct WinnersRootPosted {
    pub round: u8,
    pub root: [u8; 32],
    pub total: u64,
    pub publisher: Pubkey,
}

/// Emitted when a winner's allocation is paid out.
#[derive(Clone, Copy, Debug, PartialEq, Eq)]
pub struct WinnerPaid {
    pub round: u8,
    pub index: u32,
    pub address: Pubkey,
    pub amount: u64,
    pub total_claimed: u64,
}

/// Emitted when a round is closed, with both closing reasons.
#[derive(Clone, Copy, Debug, PartialEq, Eq)]
pub struct RoundClosed {
    pub round: u8,
    pub total_claimed: u64,
    pub cap_reached: bool,
    pub deadline_passed: bool,
}

/// Emitted when governance replaces the publisher.
#[derive(Clone, Copy, Debug, PartialEq, Eq)]
pub struct PublisherUpdated {
    pub old_publisher: Pubkey,
    pub new_publisher: Pubkey,
}

/// Emitted when governance flips the pause switch.
#[derive(Clone, Copy, Debug, PartialEq, Eq, Structural)]
pub struct Paused {
    pub is_paused: bool,
}

} // verus!
