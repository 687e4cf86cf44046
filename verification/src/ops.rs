use vstd::prelude::*;

use crate::errors::HeroRewardsError;
use crate::events::{
    Initialized, Paused, Prefunded, PublisherUpdated, RoundClosed, WinnerPaid, WinnersRootPosted,
};
use crate::merkle::{bytes32_eq, hash_leaf, leaf_hash, merkle_root_from, verify_merkle_proof, views_of};
use crate::state::{ClaimState, HeroRewardsState, Pubkey, RoundState};
use crate::{PER_ROUND_CAP_HUMAN, TOTAL_ROUNDS, TOTAL_TOKENS_HUMAN};

verus! {

broadcast use vstd::array::group_array_axioms;

/// A token movement for the surrounding runtime to carry out. The library
/// decides every transfer but never touches balances itself.
#[derive(Clone, Copy, Debug, PartialEq, Eq)]
pub struct TokenTransfer {
    /// Account the tokens leave.
    pub from: Pubkey,
    /// Account the tokens arrive at.
    pub to: Pubkey,
    /// Amount moved, in base units.
    pub amount: u64,
}

/// Everything a successful claim produces: the updated records, the payout
/// to perform, and the notification to emit.
#[derive(Clone, Copy, Debug, PartialEq, Eq)]
pub struct ClaimOutcome {
    /// The round record with the payout added to its claimed amount.
    pub round_rec: RoundState,
    /// The claim record to store for this (round, index) pair.
    pub claim_rec: ClaimState,
    /// The payout from the vault to the winner.
    pub transfer: TokenTransfer,
    /// The notification of the payout.
    pub event: WinnerPaid,
}

/// Ten to the power `e`.
pub open spec fn pow10(e: nat) -> nat
    decreases e,
{
    if e == 0 {
        1
    } else {
        10 * pow10((e - 1) as nat)
    }
}

/// Ten to a higher power is never smaller.
proof fn lemma_pow10_increases(i: nat, j: nat)
    requires
        i <= j,
    ensures
        pow10(i) <= pow10(j),
    decreases j,
{
    if i < j {
        lemma_pow10_increases(i, (j - 1) as nat);
    }
}

/// Computes ten to the power `e`, or nothing where it exceeds the unsigned
/// 128-bit range.
fn pow10_u128(e: u8) -> (r: Option<u128>)
    ensures
        match r {
            Some(p) => p == pow10(e as nat),
            None => pow10(e as nat) > u128::MAX,
        },
{
    let mut acc: u128 = 1;
    let mut i: u8 = 0;
    while i < e
        invariant
            0 <= i <= e,
            acc == pow10(i as nat),
        decreases e - i,
    {
        if acc > u128::MAX / 10 {
            proof {
                assert(pow10((i + 1) as nat) == 10 * acc);
                lemma_pow10_increases((i + 1) as nat, e as nat);
            }
            return None;
        }
        acc = acc * 10;
        i += 1;
    }
    Some(acc)
}

/// Creates the global configuration from the given addresses and economics.
/// The base-unit totals are the human-readable supply and cap scaled by the
/// token's decimals; if the scaled supply does not fit the unsigned 128-bit
/// range the whole initialization fails with `Overflow`.
pub fn initialize(
    governance: Pubkey,
    mint_lux: Pubkey,
    vault_lux: Pubkey,
    publisher: Pubkey,
    tge_ts: i64,
    round_len_secs: i64,
    decimals: u8,
) -> (r: Result<(HeroRewardsState, Initialized), HeroRewardsError>)
    ensures
        r is Err <==> TOTAL_TOKENS_HUMAN * pow10(decimals as nat) > u128::MAX,
        r is Err ==> r->Err_0 == HeroRewardsError::Overflow,
        r is Ok ==> ({
            let st = r->Ok_0.0;
            &&& st.governance == governance
            &&& st.mint_lux == mint_lux
            &&& st.vault_lux == vault_lux
            &&& st.tge_ts == tge_ts
            &&& st.round_len_secs == round_len_secs
            &&& st.total_rounds == TOTAL_ROUNDS
            &&& st.total_units == TOTAL_TOKENS_HUMAN * pow10(decimals as nat)
            &&& st.per_round_cap == PER_ROUND_CAP_HUMAN * pow10(decimals as nat)
            &&& st.publisher == publisher
            &&& st.paused == false
        }),
        r is Ok ==> r->Ok_0.1 == (Initialized {
            tge_ts,
            round_len_secs,
            total_rounds: TOTAL_ROUNDS,
            total_units: r->Ok_0.0.total_units,
            publisher,
        }),
{
    let power = match pow10_u128(decimals) {
        Some(p) => p,
        None => {
            return Err(HeroRewardsError::Overflow);
        },
    };
    let total_units = match (TOTAL_TOKENS_HUMAN as u128).checked_mul(power) {
        Some(t) => t,
        None => {
            return Err(HeroRewardsError::Overflow);
        },
    };
    let per_round_cap = match (PER_ROUND_CAP_HUMAN as u128).checked_mul(power) {
        Some(c) => c,
        None => {
            return Err(HeroRewardsError::Overflow);
        },
    };
    let state = HeroRewardsState {
        governance,
        mint_lux,
        vault_lux,
        tge_ts,
        round_len_secs,
        total_rounds: TOTAL_ROUNDS,
        total_units,
        per_round_cap,
        publisher,
        paused: false,
    };
    let event = Initialized {
        tge_ts,
        round_len_secs,
        total_rounds: TOTAL_ROUNDS,
        total_units,
        publisher,
    };
    Ok((state, event))
}

/// Accepts a funding request: any positive amount may be moved into the
/// vault, whether or not the programme is paused. No cap is enforced here.
pub fn prefund(state: &HeroRewardsState, rew_lux_ata: Pubkey, amount: u64) -> (r: Result<
    (TokenTransfer, Prefunded),
    HeroRewardsError,
>)
    ensures
        r is Ok <==> amount > 0,
        r is Err ==> r->Err_0 == HeroRewardsError::InvalidAmount,
        r is Ok ==> r->Ok_0.0 == (TokenTransfer {
            from: rew_lux_ata,
            to: state.vault_lux,
            amount,
        }),
        r is Ok ==> r->Ok_0.1 == (Prefunded { amount, vault: state.vault_lux }),
{
    if amount == 0 {
        return Err(HeroRewardsError::InvalidAmount);
    }
    let transfer = TokenTransfer { from: rew_lux_ata, to: state.vault_lux, amount };
    let event = Prefunded { amount, vault: state.vault_lux };
    Ok((transfer, event))
}

/// Which check a commitment of a winners root fails, if any, in the order
/// the checks are made: the caller must be the publisher, the round in
/// range, the programme running, the declared total exactly the per-round
/// cap, and the round not yet started.
pub open spec fn post_winners_root_check(
    state: HeroRewardsState,
    caller: Pubkey,
    prior: Option<RoundState>,
    round: u8,
    total: u64,
) -> Option<HeroRewardsError> {
    if caller@ != state.publisher@ {
        Some(HeroRewardsError::Unauthorized)
    } else if round == 0 || round > TOTAL_ROUNDS {
        Some(HeroRewardsError::InvalidRound)
    } else if state.paused {
        Some(HeroRewardsError::Paused)
    } else if total as u128 != state.per_round_cap {
        Some(HeroRewardsError::InvalidTotal)
    } else if prior is Some && prior->Some_0.distribution_started {
        Some(HeroRewardsError::DistributionAlreadyStarted)
    } else {
        None
    }
}

/// Commits a round's winner list: stores its root and declared total and
/// marks the distribution started. `prior` is the record already stored
/// under this round number, if any; a round that has started cannot be
/// committed again.
pub fn post_winners_root(
    state: &HeroRewardsState,
    caller: Pubkey,
    prior: &Option<RoundState>,
    round: u8,
    root: [u8; 32],
    total: u64,
) -> (r: Result<(RoundState, WinnersRootPosted), HeroRewardsError>)
    ensures
        match post_winners_root_check(*state, caller, *prior, round, total) {
            Some(e) => r == Err::<(RoundState, WinnersRootPosted), HeroRewardsError>(e),
            None => {
                &&& r is Ok
                &&& r->Ok_0.0 == (RoundState {
                    round,
                    root,
                    total,
                    claimed_amount: 0,
                    distribution_started: true,
                    distribution_finished: false,
                })
                &&& r->Ok_0.1 == (WinnersRootPosted { round, root, total, publisher: caller })
            },
        },
{
    if !bytes32_eq(&caller, &state.publisher) {
        return Err(HeroRewardsError::Unauthorized);
    }
    if round == 0 || round > TOTAL_ROUNDS {
        return Err(HeroRewardsError::InvalidRound);
    }
    if state.paused {
        return Err(HeroRewardsError::Paused);
    }
    if (total as u128) != state.per_round_cap {
        return Err(HeroRewardsError::InvalidTotal);
    }
    if let Some(p) = prior {
        if p.distribution_started {
            return Err(HeroRewardsError::DistributionAlreadyStarted);
        }
    }
    let rec = RoundState {
        round,
        root,
        total,
        claimed_amount: 0,
        distribution_started: true,
        distribution_finished: false,
    };
    let event = WinnersRootPosted { round, root, total, publisher: caller };
    Ok((rec, event))
}

/// Which check a claim fails, if any, in the order the checks are made:
/// the winner reference must match the claimed address, the round be in
/// range, the programme running, the round started and not finished, the
/// sibling path reach the committed root, and the payout fit both the
/// unsigned 64-bit range and the round's declared total.
pub open spec fn claim_winner_check(
    state: HeroRewardsState,
    round_rec: Option<RoundState>,
    winner: Pubkey,
    round: u8,
    index: u32,
    address: Pubkey,
    amount: u64,
    siblings: Seq<Seq<u8>>,
) -> Option<HeroRewardsError> {
    if winner@ != address@ {
        Some(HeroRewardsError::InvalidWinner)
    } else if round == 0 || round > TOTAL_ROUNDS {
        Some(HeroRewardsError::InvalidRound)
    } else if state.paused {
        Some(HeroRewardsError::Paused)
    } else if !(round_rec is Some && round_rec->Some_0.distribution_started) {
        Some(HeroRewardsError::DistributionNotStarted)
    } else if round_rec->Some_0.distribution_finished {
        Some(HeroRewardsError::DistributionFinished)
    } else if merkle_root_from(leaf_hash(index, address@, amount), siblings)
        != round_rec->Some_0.root@ {
        Some(HeroRewardsError::InvalidProof)
    } else if round_rec->Some_0.claimed_amount + amount > u64::MAX {
        Some(HeroRewardsError::Overflow)
    } else if round_rec->Some_0.claimed_amount + amount > round_rec->Some_0.total {
        Some(HeroRewardsError::ExceedsRoundCap)
    } else {
        None
    }
}

/// Pays one winner entry of a round: checks the sibling-path proof against
/// the round's committed root, adds the amount to the round's claimed
/// total, records the leaf as claimed, and orders the payout from the
/// vault.
///
/// `claim_rec` is the record already stored for this (round, index) pair,
/// if any. It is replaced without being read: a leaf whose proof still
/// verifies passes every check again even after it was paid, so a repeat
/// claim is paid again as long as the round's cap leaves room.
pub fn claim_winner(
    state: &HeroRewardsState,
    round_rec: &Option<RoundState>,
    claim_rec: &Option<ClaimState>,
    winner: Pubkey,
    round: u8,
    index: u32,
    address: Pubkey,
    amount: u64,
    siblings: Vec<[u8; 32]>,
) -> (r: Result<ClaimOutcome, HeroRewardsError>)
    ensures
        match claim_winner_check(
            *state,
            *round_rec,
            winner,
            round,
            index,
            address,
            amount,
            views_of(siblings@),
        ) {
            Some(e) => r == Err::<ClaimOutcome, HeroRewardsError>(e),
            None => {
                let rec = round_rec->Some_0;
                &&& r is Ok
                &&& r->Ok_0.round_rec == (RoundState {
                    claimed_amount: (rec.claimed_amount + amount) as u64,
                    ..rec
                })
                &&& r->Ok_0.claim_rec == (ClaimState { claimed: true })
                &&& r->Ok_0.transfer == (TokenTransfer {
                    from: state.vault_lux,
                    to: address,
                    amount,
                })
                &&& r->Ok_0.event == (WinnerPaid {
                    round,
                    index,
                    address,
                    amount,
                    total_claimed: (rec.claimed_amount + amount) as u64,
                })
            },
        },
{
    if !bytes32_eq(&winner, &address) {
        return Err(HeroRewardsError::InvalidWinner);
    }
    if round == 0 || round > TOTAL_ROUNDS {
        return Err(HeroRewardsError::InvalidRound);
    }
    if state.paused {
        return Err(HeroRewardsError::Paused);
    }
    let rec = match round_rec {
        Some(rec) => rec,
        None => {
            return Err(HeroRewardsError::DistributionNotStarted);
        },
    };
    if !rec.distribution_started {
        return Err(HeroRewardsError::DistributionNotStarted);
    }
    if rec.distribution_finished {
        return Err(HeroRewardsError::DistributionFinished);
    }
    let leaf = hash_leaf(index, address, amount);
    if !verify_merkle_proof(leaf, siblings, rec.root) {
        return Err(HeroRewardsError::InvalidProof);
    }
    let new_claimed = match rec.claimed_amount.checked_add(amount) {
        Some(n) => n,
        None => {
            return Err(HeroRewardsError::Overflow);
        },
    };
    if new_claimed > rec.total {
        return Err(HeroRewardsError::ExceedsRoundCap);
    }
    Ok(ClaimOutcome {
        round_rec: RoundState { claimed_amount: new_claimed, ..*rec },
        claim_rec: ClaimState { claimed: true },
        transfer: TokenTransfer { from: state.vault_lux, to: address, amount },
        event: WinnerPaid { round, index, address, amount, total_claimed: new_claimed },
    })
}

/// When the given round ends: the launch timestamp plus one round length
/// for every earlier round.
pub open spec fn round_end_ts(state: HeroRewardsState, round: u8) -> int {
    state.tge_ts + (round as int - 1) * state.round_len_secs
}

/// Which check closing a round fails before the clock is consulted, if
/// any, in the order the checks are made.
pub open spec fn close_round_precheck(
    state: HeroRewardsState,
    round_rec: Option<RoundState>,
    round: u8,
) -> Option<HeroRewardsError> {
    if round == 0 || round > TOTAL_ROUNDS {
        Some(HeroRewardsError::InvalidRound)
    } else if state.paused {
        Some(HeroRewardsError::Paused)
    } else if !(round_rec is Some && round_rec->Some_0.distribution_started) {
        Some(HeroRewardsError::DistributionNotStarted)
    } else if round_rec->Some_0.distribution_finished {
        Some(HeroRewardsError::DistributionFinished)
    } else {
        None
    }
}

/// Which check closing a round fails, if any: after the prechecks, the
/// round must either have reached its cap or have passed its deadline.
pub open spec fn close_round_check(
    state: HeroRewardsState,
    round_rec: Option<RoundState>,
    round: u8,
    now: i64,
) -> Option<HeroRewardsError> {
    match close_round_precheck(state, round_rec, round) {
        Some(e) => Some(e),
        None => {
            let rec = round_rec->Some_0;
            if rec.claimed_amount >= rec.total || now > round_end_ts(state, round) {
                None
            } else {
                Some(HeroRewardsError::RoundNotClosable)
            }
        },
    }
}

/// Closes a round: once its cap is reached or its deadline has passed,
/// marks it finished, after which no further claims are accepted. Callable
/// by anyone; `now` is the current ledger time.
pub fn close_round(
    state: &HeroRewardsState,
    round_rec: &Option<RoundState>,
    round: u8,
    now: i64,
) -> (r: Result<(RoundState, RoundClosed), HeroRewardsError>)
    requires
        close_round_precheck(*state, *round_rec, round) is None ==> {
            &&& i64::MIN <= (round as int - 1) * state.round_len_secs <= i64::MAX
            &&& i64::MIN <= round_end_ts(*state, round) <= i64::MAX
        },
    ensures
        match close_round_check(*state, *round_rec, round, now) {
            Some(e) => r == Err::<(RoundState, RoundClosed), HeroRewardsError>(e),
            None => {
                let rec = round_rec->Some_0;
                &&& r is Ok
                &&& r->Ok_0.0 == (RoundState { distribution_finished: true, ..rec })
                &&& r->Ok_0.1 == (RoundClosed {
                    round,
                    total_claimed: rec.claimed_amount,
                    cap_reached: rec.claimed_amount >= rec.total,
                    deadline_passed: now > round_end_ts(*state, round),
                })
            },
        },
{
    if round == 0 || round > TOTAL_ROUNDS {
        return Err(HeroRewardsError::InvalidRound);
    }
    if state.paused {
        return Err(HeroRewardsError::Paused);
    }
    let rec = match round_rec {
        Some(rec) => rec,
        None => {
            return Err(HeroRewardsError::DistributionNotStarted);
        },
    };
    if !rec.distribution_started {
        return Err(HeroRewardsError::DistributionNotStarted);
    }
    if rec.distribution_finished {
        return Err(HeroRewardsError::DistributionFinished);
    }
    let round_end = state.tge_ts + ((round - 1) as i64) * state.round_len_secs;
    let cap_reached = rec.claimed_amount >= rec.total;
    let deadline_passed = now > round_end;
    if !(cap_reached || deadline_passed) {
        return Err(HeroRewardsError::RoundNotClosable);
    }
    let closed = RoundState { distribution_finished: true, ..*rec };
    let event = RoundClosed { round, total_claimed: rec.claimed_amount, cap_reached, deadline_passed };
    Ok((closed, event))
}

/// Replaces the publisher. Only the stored governance identity may do so;
/// the notification carries the publisher being replaced and its successor.
pub fn set_publisher(state: &mut HeroRewardsState, caller: Pubkey, new_publisher: Pubkey) -> (r:
    Result<PublisherUpdated, HeroRewardsError>)
    ensures
        caller@ != old(state).governance@ ==> {
            &&& r == Err::<PublisherUpdated, HeroRewardsError>(HeroRewardsError::Unauthorized)
            &&& *final(state) == *old(state)
        },
        caller@ == old(state).governance@ ==> {
            &&& r == Ok::<PublisherUpdated, HeroRewardsError>((PublisherUpdated {
                old_publisher: old(state).publisher,
                new_publisher,
            }))
            &&& *final(state) == (HeroRewardsState { publisher: new_publisher, ..*old(state) })
        },
{
    if !bytes32_eq(&caller, &state.governance) {
        return Err(HeroRewardsError::Unauthorized);
    }
    let old_publisher = state.publisher;
    state.publisher = new_publisher;
    Ok(PublisherUpdated { old_publisher, new_publisher })
}

/// Sets or clears the administrative halt. Only the stored governance
/// identity may do so.
pub fn pause(state: &mut HeroRewardsState, caller: Pubkey, is_paused: bool) -> (r: Result<
    Paused,
    HeroRewardsError,
>)
    ensures
        caller@ != old(state).governance@ ==> {
            &&& r == Err::<Paused, HeroRewardsError>(HeroRewardsError::Unauthorized)
            &&& *final(state) == *old(state)
        },
        caller@ == old(state).governance@ ==> {
            &&& r == Ok::<Paused, HeroRewardsError>((Paused { is_paused }))
            &&& *final(state) == (HeroRewardsState { paused: is_paused, ..*old(state) })
        },
{
    if !bytes32_eq(&caller, &state.governance) {
        return Err(HeroRewardsError::Unauthorized);
    }
    state.paused = is_paused;
    Ok(Paused { is_paused })
}

} // verus!
