use vstd::prelude::*;

use crate::errors::HeroRewardsError;
use crate::ops::{claim_winner_check, close_round_check, post_winners_root_check};
use crate::state::{HeroRewardsState, Pubkey, RoundState};
use crate::TOTAL_ROUNDS;

verus! {

/// A winners root is committed at most once per round: an accepted
/// commitment stores a record with the distribution started, and any later
/// commitment for the same round, with that record stored, is rejected as
/// already started.
pub proof fn lemma_post_winners_root_only_once(
    state: HeroRewardsState,
    caller: Pubkey,
    prior: Option<RoundState>,
    round: u8,
    total: u64,
    stored: RoundState,
)
    requires
        post_winners_root_check(state, caller, prior, round, total) is None,
        stored.distribution_started,
    ensures
        post_winners_root_check(state, caller, Some(stored), round, total) == Some(
            HeroRewardsError::DistributionAlreadyStarted,
        ),
{
}

/// The duplicate-payout gap, stated: the claim checks never consult the
/// stored claim record, so after an accepted claim raises the round's
/// claimed amount, the identical claim is accepted a second time whenever
/// the round's total still leaves room for it.
pub proof fn lemma_duplicate_claim_accepted(
    state: HeroRewardsState,
    rec: RoundState,
    winner: Pubkey,
    round: u8,
    index: u32,
    address: Pubkey,
    amount: u64,
    siblings: Seq<Seq<u8>>,
)
    requires
        claim_winner_check(state, Some(rec), winner, round, index, address, amount, siblings)
            is None,
        rec.claimed_amount + amount + amount <= rec.total,
    ensures
        claim_winner_check(
            state,
            Some(RoundState { claimed_amount: (rec.claimed_amount + amount) as u64, ..rec }),
            winner,
            round,
            index,
            address,
            amount,
            siblings,
        ) is None,
{
}

/// An accepted claim keeps the round record well formed: the new claimed
/// amount still lies within the round's declared total.
pub proof fn lemma_claim_preserves_round_wf(
    state: HeroRewardsState,
    rec: RoundState,
    winner: Pubkey,
    round: u8,
    index: u32,
    address: Pubkey,
    amount: u64,
    siblings: Seq<Seq<u8>>,
)
    requires
        claim_winner_check(state, Some(rec), winner, round, index, address, amount, siblings)
            is None,
    ensures
        (RoundState { claimed_amount: (rec.claimed_amount + amount) as u64, ..rec }).wf(),
{
}

/// A round closes at most once: closing stores a finished record, and a
/// second close of that record, at any later time, is rejected as
/// finished.
pub proof fn lemma_close_round_only_once(
    state: HeroRewardsState,
    rec: RoundState,
    round: u8,
    now: i64,
    later: i64,
)
    requires
        close_round_check(state, Some(rec), round, now) is None,
    ensures
        close_round_check(
            state,
            Some(RoundState { distribution_finished: true, ..rec }),
            round,
            later,
        ) == Some(HeroRewardsError::DistributionFinished),
{
}

/// While the pause switch is on, no winners root is committed: the check
/// rejects every input, and reports the pause itself as soon as the caller
/// and the round number pass.
pub proof fn lemma_paused_blocks_post_winners_root(
    state: HeroRewardsState,
    caller: Pubkey,
    prior: Option<RoundState>,
    round: u8,
    total: u64,
)
    requires
        state.paused,
    ensures
        post_winners_root_check(state, caller, prior, round, total) is Some,
        caller@ == state.publisher@ && 1 <= round <= TOTAL_ROUNDS
            ==> post_winners_root_check(state, caller, prior, round, total) == Some(
            HeroRewardsError::Paused,
        ),
{
}

/// While the pause switch is on, no claim is paid: the check rejects every
/// input, and reports the pause itself as soon as the winner reference and
/// the round number pass.
pub proof fn lemma_paused_blocks_claim_winner(
    state: HeroRewardsState,
    round_rec: Option<RoundState>,
    winner: Pubkey,
    round: u8,
    index: u32,
    address: Pubkey,
    amount: u64,
    siblings: Seq<Seq<u8>>,
)
    requires
        state.paused,
    ensures
        claim_winner_check(state, round_rec, winner, round, index, address, amount, siblings)
            is Some,
        winner@ == address@ && 1 <= round <= TOTAL_ROUNDS ==> claim_winner_check(
            state,
            round_rec,
            winner,
            round,
            index,
            address,
            amount,
            siblings,
        ) == Some(HeroRewardsError::Paused),
{
}

/// While the pause switch is on, no round is closed: the check rejects
/// every input, and reports the pause itself as soon as the round number
/// passes.
pub proof fn lemma_paused_blocks_close_round(
    state: HeroRewardsState,
    round_rec: Option<RoundState>,
    round: u8,
    now: i64,
)
    requires
        state.paused,
    ensures
        close_round_check(state, round_rec, round, now) is Some,
        1 <= round <= TOTAL_ROUNDS ==> close_round_check(state, round_rec, round, now) == Some(
            HeroRewardsError::Paused,
        ),
{
}

} // verus!
