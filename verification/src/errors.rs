use vstd::prelude::*;

verus! {

/// Every way an operation can be rejected. A failed operation changes no
/// state and emits no event; the variant tells the caller which check failed.
#[derive(Clone, Copy, Debug, PartialEq, Eq, Structural)]
pub enum HeroRewardsError {
    /// Signer does not match the stored governance or publisher address.
    Unauthorized,
    /// Round number lies outside the valid range of rounds.
    InvalidRound,
    /// Declared round total does not equal the per-round cap.
    InvalidTotal,
    /// A winners root was already committed for this round.
    DistributionAlreadyStarted,
    /// No winners root has been committed for this round yet.
    DistributionNotStarted,
    /// The round has already been closed.
    DistributionFinished,
    /// The sibling path does not reproduce the round's committed root.
    InvalidProof,
    /// Paying this claim would push the round past its declared total.
    ExceedsRoundCap,
    /// Neither the cap was reached nor the round's deadline passed.
    RoundNotClosable,
    /// The winner reference does not match the claimed address.
    InvalidWinner,
    /// The claim record does not match its derived identity.
    InvalidClaimState,
    /// The administrative pause switch is on.
    Paused,
    /// Arithmetic exceeded the unsigned 64-bit or 128-bit range.
    Overflow,
    /// A zero funding amount was requested.
    InvalidAmount,
}

} // verus!
