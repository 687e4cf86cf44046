use hero_rewards::errors::HeroRewardsError;
use hero_rewards::ops::{
    claim_winner, close_round, initialize, pause, post_winners_root, prefund, set_publisher,
};
use hero_rewards::state::{HeroRewardsState, RoundState};
use sha3::{Digest, Keccak256};

const GOVERNANCE: [u8; 32] = [1u8; 32];
const MINT: [u8; 32] = [2u8; 32];
const VAULT: [u8; 32] = [3u8; 32];
const PUBLISHER: [u8; 32] = [4u8; 32];
const CAP: u64 = 1_000_000_000;

fn pk(b: u8) -> [u8; 32] {
    [b; 32]
}

fn keccak(data: &[u8]) -> [u8; 32] {
    let mut hasher = Keccak256::new();
    hasher.update(data);
    hasher.finalize().into()
}

fn leaf(index: u32, address: [u8; 32], amount: u64) -> [u8; 32] {
    let mut data = Vec::new();
    data.extend_from_slice(&index.to_le_bytes());
    data.extend_from_slice(&address);
    data.extend_from_slice(&amount.to_le_bytes());
    keccak(&data)
}

fn node(a: [u8; 32], b: [u8; 32]) -> [u8; 32] {
    let mut data = Vec::new();
    if a < b {
        data.extend_from_slice(&a);
        data.extend_from_slice(&b);
    } else {
        data.extend_from_slice(&b);
        data.extend_from_slice(&a);
    }
    keccak(&data)
}

fn fresh_state() -> HeroRewardsState {
    initialize(GOVERNANCE, MINT, VAULT, PUBLISHER, 1_000, 60, 0).unwrap().0
}

/// A round record as `post_winners_root` would store it, for claim tests
/// whose root is a single leaf.
fn round_record(root: [u8; 32], total: u64, claimed: u64) -> RoundState {
    RoundState {
        round: 1,
        root,
        total,
        claimed_amount: claimed,
        distribution_started: true,
        distribution_finished: false,
    }
}

#[test]
fn initialize_scales_supply_by_decimals() {
    let (state, event) = initialize(GOVERNANCE, MINT, VAULT, PUBLISHER, 1_000, 60, 0).unwrap();
    assert_eq!(state.total_units, 45_000_000_000u128);
    assert_eq!(state.per_round_cap, 1_000_000_000u128);
    assert_eq!(state.total_rounds, 45);
    assert_eq!(state.governance, GOVERNANCE);
    assert_eq!(state.publisher, PUBLISHER);
    assert!(!state.paused);
    assert_eq!(event.total_units, 45_000_000_000u128);
    assert_eq!(event.tge_ts, 1_000);
    assert_eq!(event.round_len_secs, 60);
    assert_eq!(event.total_rounds, 45);
    assert_eq!(event.publisher, PUBLISHER);

    let (state9, _) = initialize(GOVERNANCE, MINT, VAULT, PUBLISHER, 1_000, 60, 9).unwrap();
    assert_eq!(state9.total_units, 45_000_000_000_000_000_000u128);
    assert_eq!(state9.per_round_cap, 1_000_000_000_000_000_000u128);
}

#[test]
fn initialize_overflows_on_large_decimals() {
    // The largest decimal count whose scaled supply still fits 128 bits.
    assert!(initialize(GOVERNANCE, MINT, VAULT, PUBLISHER, 0, 60, 27).is_ok());
    assert_eq!(
        initialize(GOVERNANCE, MINT, VAULT, PUBLISHER, 0, 60, 28),
        Err(HeroRewardsError::Overflow)
    );
    assert_eq!(
        initialize(GOVERNANCE, MINT, VAULT, PUBLISHER, 0, 60, 30),
        Err(HeroRewardsError::Overflow)
    );
    assert_eq!(
        initialize(GOVERNANCE, MINT, VAULT, PUBLISHER, 0, 60, 255),
        Err(HeroRewardsError::Overflow)
    );
}

#[test]
fn post_winners_root_checks_round_range() {
    let state = fresh_state();
    let root = pk(9);
    assert_eq!(
        post_winners_root(&state, PUBLISHER, &None, 0, root, CAP),
        Err(HeroRewardsError::InvalidRound)
    );
    assert_eq!(
        post_winners_root(&state, PUBLISHER, &None, 46, root, CAP),
        Err(HeroRewardsError::InvalidRound)
    );
    let (rec1, event1) = post_winners_root(&state, PUBLISHER, &None, 1, root, CAP).unwrap();
    assert_eq!(rec1.round, 1);
    assert_eq!(rec1.root, root);
    assert_eq!(rec1.total, CAP);
    assert_eq!(rec1.claimed_amount, 0);
    assert!(rec1.distribution_started);
    assert!(!rec1.distribution_finished);
    assert_eq!(event1.publisher, PUBLISHER);
    assert!(post_winners_root(&state, PUBLISHER, &None, 45, root, CAP).is_ok());
}

#[test]
fn post_winners_root_checks_total_and_caller() {
    let state = fresh_state();
    let root = pk(9);
    assert_eq!(
        post_winners_root(&state, PUBLISHER, &None, 1, root, CAP - 1),
        Err(HeroRewardsError::InvalidTotal)
    );
    assert_eq!(
        post_winners_root(&state, PUBLISHER, &None, 1, root, CAP + 1),
        Err(HeroRewardsError::InvalidTotal)
    );
    assert_eq!(
        post_winners_root(&state, pk(7), &None, 1, root, CAP),
        Err(HeroRewardsError::Unauthorized)
    );
}

#[test]
fn post_winners_root_only_once_per_round() {
    let state = fresh_state();
    let (rec, _) = post_winners_root(&state, PUBLISHER, &None, 3, pk(9), CAP).unwrap();
    assert_eq!(
        post_winners_root(&state, PUBLISHER, &Some(rec), 3, pk(9), CAP),
        Err(HeroRewardsError::DistributionAlreadyStarted)
    );
}

#[test]
fn four_leaf_proof_verifies_and_flipped_byte_fails() {
    let address = pk(12);
    let l0 = leaf(0, pk(10), 100);
    let l1 = leaf(1, pk(11), 200);
    let l2 = leaf(2, address, 500);
    let l3 = leaf(3, pk(13), 400);
    let n01 = node(l0, l1);
    let n23 = node(l2, l3);
    let root = node(n01, n23);

    let computed = hero_rewards::merkle::hash_leaf(2, address, 500);
    assert_eq!(computed, l2);

    assert!(hero_rewards::merkle::verify_merkle_proof(l2, vec![l3, n01], root));
    let mut bad = vec![l3, n01];
    bad[0][0] ^= 1;
    assert!(!hero_rewards::merkle::verify_merkle_proof(l2, bad, root));
    assert!(!hero_rewards::merkle::verify_merkle_proof(l2, vec![n01, l3], root));
}

#[test]
fn claim_winner_pays_and_updates_round() {
    let state = fresh_state();
    let winner = pk(20);
    let root = leaf(7, winner, 500);
    let rec = round_record(root, CAP, 0);
    let out = claim_winner(&state, &Some(rec), &None, winner, 1, 7, winner, 500, vec![])
        .unwrap();
    assert_eq!(out.round_rec.claimed_amount, 500);
    assert_eq!(out.round_rec.total, CAP);
    assert!(out.claim_rec.claimed);
    assert_eq!(out.transfer.from, VAULT);
    assert_eq!(out.transfer.to, winner);
    assert_eq!(out.transfer.amount, 500);
    assert_eq!(out.event.round, 1);
    assert_eq!(out.event.index, 7);
    assert_eq!(out.event.address, winner);
    assert_eq!(out.event.amount, 500);
    assert_eq!(out.event.total_claimed, 500);
}

#[test]
fn claim_winner_verifies_proof_against_tree() {
    let state = fresh_state();
    let address = pk(12);
    let l0 = leaf(0, pk(10), 100);
    let l1 = leaf(1, pk(11), 200);
    let l2 = leaf(2, address, 500);
    let l3 = leaf(3, pk(13), 400);
    let n01 = node(l0, l1);
    let root = node(n01, node(l2, l3));
    let rec = round_record(root, CAP, 0);

    let out =
        claim_winner(&state, &Some(rec), &None, address, 1, 2, address, 500, vec![l3, n01])
            .unwrap();
    assert_eq!(out.round_rec.claimed_amount, 500);

    assert_eq!(
        claim_winner(&state, &Some(rec), &None, address, 1, 2, address, 501, vec![l3, n01]),
        Err(HeroRewardsError::InvalidProof)
    );
    assert_eq!(
        claim_winner(&state, &Some(rec), &None, address, 1, 3, address, 500, vec![l3, n01]),
        Err(HeroRewardsError::InvalidProof)
    );
}

#[test]
fn claim_winner_rejects_when_cap_would_be_passed() {
    let state = fresh_state();
    let winner = pk(20);
    let root = leaf(7, winner, 500);
    let rec = round_record(root, CAP, CAP - 499);
    assert_eq!(
        claim_winner(&state, &Some(rec), &None, winner, 1, 7, winner, 500, vec![]),
        Err(HeroRewardsError::ExceedsRoundCap)
    );
    // With exactly enough room the same claim is paid.
    let rec_room = round_record(root, CAP, CAP - 500);
    let out = claim_winner(&state, &Some(rec_room), &None, winner, 1, 7, winner, 500, vec![])
        .unwrap();
    assert_eq!(out.round_rec.claimed_amount, CAP);
}

#[test]
fn claim_winner_overflow_on_sum() {
    let state = fresh_state();
    let winner = pk(20);
    let root = leaf(0, winner, 200);
    let rec = round_record(root, u64::MAX, u64::MAX - 100);
    assert_eq!(
        claim_winner(&state, &Some(rec), &None, winner, 1, 0, winner, 200, vec![]),
        Err(HeroRewardsError::Overflow)
    );
}

#[test]
fn duplicate_claim_is_paid_twice() {
    // The per-leaf record is stored but never read back: the identical
    // claim succeeds again and the round's claimed amount rises twice.
    let state = fresh_state();
    let winner = pk(20);
    let root = leaf(7, winner, 500);
    let rec = round_record(root, CAP, 0);
    let first = claim_winner(&state, &Some(rec), &None, winner, 1, 7, winner, 500, vec![])
        .unwrap();
    assert!(first.claim_rec.claimed);
    let second = claim_winner(
        &state,
        &Some(first.round_rec),
        &Some(first.claim_rec),
        winner,
        1,
        7,
        winner,
        500,
        vec![],
    )
    .unwrap();
    assert_eq!(second.round_rec.claimed_amount, 1_000);
    assert_eq!(second.event.total_claimed, 1_000);
}

#[test]
fn claim_winner_rejects_bad_round_states() {
    let state = fresh_state();
    let winner = pk(20);
    let root = leaf(7, winner, 500);
    assert_eq!(
        claim_winner(&state, &None, &None, winner, 0, 7, winner, 500, vec![]),
        Err(HeroRewardsError::InvalidRound)
    );
    assert_eq!(
        claim_winner(&state, &None, &None, winner, 46, 7, winner, 500, vec![]),
        Err(HeroRewardsError::InvalidRound)
    );
    assert_eq!(
        claim_winner(&state, &None, &None, winner, 1, 7, winner, 500, vec![]),
        Err(HeroRewardsError::DistributionNotStarted)
    );
    let finished = RoundState { distribution_finished: true, ..round_record(root, CAP, 0) };
    assert_eq!(
        claim_winner(&state, &Some(finished), &None, winner, 1, 7, winner, 500, vec![]),
        Err(HeroRewardsError::DistributionFinished)
    );
    assert_eq!(
        claim_winner(&state, &Some(round_record(root, CAP, 0)), &None, pk(21), 1, 7, winner, 500, vec![]),
        Err(HeroRewardsError::InvalidWinner)
    );
}

#[test]
fn close_round_needs_cap_or_deadline() {
    let state = fresh_state();
    // Round 1 ends at the launch timestamp itself: 1_000 + 0 * 60.
    let rec = round_record(pk(9), CAP, 0);
    assert_eq!(
        close_round(&state, &Some(rec), 1, 1_000),
        Err(HeroRewardsError::RoundNotClosable)
    );
    let (closed, event) = close_round(&state, &Some(rec), 1, 1_001).unwrap();
    assert!(closed.distribution_finished);
    assert_eq!(event.round, 1);
    assert_eq!(event.total_claimed, 0);
    assert!(!event.cap_reached);
    assert!(event.deadline_passed);

    // Cap reached closes even before the deadline.
    let full = round_record(pk(9), CAP, CAP);
    let (_, event_full) = close_round(&state, &Some(full), 1, 0).unwrap();
    assert!(event_full.cap_reached);
    assert!(!event_full.deadline_passed);

    // Round 3 ends two round lengths after launch.
    assert_eq!(
        close_round(&state, &Some(RoundState { round: 3, ..rec }), 3, 1_120),
        Err(HeroRewardsError::RoundNotClosable)
    );
    assert!(close_round(&state, &Some(RoundState { round: 3, ..rec }), 3, 1_121).is_ok());
}

#[test]
fn close_round_only_once() {
    let state = fresh_state();
    let rec = round_record(pk(9), CAP, CAP);
    let (closed, _) = close_round(&state, &Some(rec), 1, 0).unwrap();
    assert_eq!(
        close_round(&state, &Some(closed), 1, 5_000),
        Err(HeroRewardsError::DistributionFinished)
    );
    assert_eq!(
        close_round(&state, &None, 1, 5_000),
        Err(HeroRewardsError::DistributionNotStarted)
    );
    assert_eq!(close_round(&state, &Some(rec), 0, 0), Err(HeroRewardsError::InvalidRound));
    assert_eq!(close_round(&state, &Some(rec), 46, 0), Err(HeroRewardsError::InvalidRound));
}

#[test]
fn pause_blocks_everything_but_prefund() {
    let mut state = fresh_state();
    let paused_event = pause(&mut state, GOVERNANCE, true).unwrap();
    assert!(paused_event.is_paused);
    assert!(state.paused);

    assert_eq!(
        post_winners_root(&state, PUBLISHER, &None, 1, pk(9), CAP),
        Err(HeroRewardsError::Paused)
    );
    let winner = pk(20);
    let root = leaf(7, winner, 500);
    let rec = round_record(root, CAP, 0);
    assert_eq!(
        claim_winner(&state, &Some(rec), &None, winner, 1, 7, winner, 500, vec![]),
        Err(HeroRewardsError::Paused)
    );
    assert_eq!(close_round(&state, &Some(rec), 1, 5_000), Err(HeroRewardsError::Paused));

    // Funding is exempt from the pause.
    let (transfer, event) = prefund(&state, pk(30), 250).unwrap();
    assert_eq!(transfer.from, pk(30));
    assert_eq!(transfer.to, VAULT);
    assert_eq!(transfer.amount, 250);
    assert_eq!(event.amount, 250);
    assert_eq!(event.vault, VAULT);

    // Unpausing lets a root through again.
    let unpaused_event = pause(&mut state, GOVERNANCE, false).unwrap();
    assert!(!unpaused_event.is_paused);
    assert!(post_winners_root(&state, PUBLISHER, &None, 1, pk(9), CAP).is_ok());
}

#[test]
fn prefund_rejects_zero_amount() {
    let state = fresh_state();
    assert_eq!(prefund(&state, pk(30), 0), Err(HeroRewardsError::InvalidAmount));
}

#[test]
fn admin_operations_require_governance() {
    let mut state = fresh_state();
    assert_eq!(
        set_publisher(&mut state, pk(9), pk(5)),
        Err(HeroRewardsError::Unauthorized)
    );
    assert_eq!(state.publisher, PUBLISHER);
    assert_eq!(pause(&mut state, pk(9), true), Err(HeroRewardsError::Unauthorized));
    assert!(!state.paused);

    let event = set_publisher(&mut state, GOVERNANCE, pk(5)).unwrap();
    assert_eq!(event.old_publisher, PUBLISHER);
    assert_eq!(event.new_publisher, pk(5));
    assert_eq!(state.publisher, pk(5));
}

#[test]
fn hash_leaf_matches_keccak_of_encoding() {
    let address = pk(42);
    let expected = leaf(3, address, 77);
    assert_eq!(hero_rewards::merkle::hash_leaf(3, address, 77), expected);
    // A proof with no siblings verifies exactly against the leaf itself.
    assert!(hero_rewards::merkle::verify_merkle_proof(expected, vec![], expected));
    let other = leaf(4, address, 77);
    assert!(!hero_rewards::merkle::verify_merkle_proof(expected, vec![], other));
}
