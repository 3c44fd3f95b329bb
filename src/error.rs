use vstd::prelude::*;

verus! {

/// Every way an operation of the engine can be refused.
#[derive(Clone, Copy, Debug, PartialEq, Eq, Structural)]
pub enum ErrorCode {
    CriteriaTooLong,
    InputTooLong,
    ProposalTooLong,
    BadRelayer,
    AlreadyFulfilled,
    BadDecision,
    BadVerdict,
    ModelIdTooLong,
    SourceTooLong,
    ProposalIdTooLong,
    GovernanceTextTooLong,
    BadRevisionNumber,
    BadVoteChoice,
    BadJudgeVerdict,
    AlreadyFinalized,
    NotEnoughJudges,
    TooManyJudges,
    ActionNotApproved,
    ActionNotPending,
    BadRecipient,
    NotAuthority,
    BadMatchType,
    MatchTextTooLong,
    BadStake,
    MatchAlreadyFinalized,
    MatchNotFinalized,
    BadMatchVerdict,
    BadMatchPlayer,
    EscrowBalanceLow,
    /// The ledger already holds a record at the derived key.
    AccountAlreadyInUse,
    /// A counter would leave the range of its integer type.
    CounterOverflow,
}

} // verus!
