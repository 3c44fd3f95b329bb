use vstd::prelude::*;
use crate::error::ErrorCode;
use crate::key::{Pubkey, zero_bytes};
use crate::limits::{ACTION_LAMPORTS, MAX_GOV_PROPOSAL_TEXT_LEN, MAX_REVISION_TEXT_LEN};
use crate::registry::SlotRegistry;
use crate::text::{byte_len, fits};
use crate::transfer::Transfer;

verus! {

pub const PROPOSAL_OPEN: u8 = 0;
pub const PROPOSAL_FINALIZED: u8 = 1;

/// Vote choices.
pub const VOTE_FOR: u8 = 1;
pub const VOTE_AGAINST: u8 = 2;
pub const VOTE_ABSTAIN: u8 = 3;

/// Judge verdicts, also used for a proposal's final verdict (0 is unset).
pub const VERDICT_NONE: u8 = 0;
pub const VERDICT_APPROVE: u8 = 1;
pub const VERDICT_REJECT: u8 = 2;
pub const VERDICT_NEEDS_REVISION: u8 = 3;

/// Number of judge verdicts a proposal needs before consensus.
pub const JUDGE_QUORUM: u8 = 3;

pub const ACTION_PENDING: u8 = 0;
pub const ACTION_EXECUTED: u8 = 1;
pub const ACTION_REJECTED: u8 = 2;

/// A governance proposal with its vote and judge tallies.
#[derive(Clone, Debug)]
pub struct Proposal {
    pub authority: Pubkey,
    pub status: u8,
    pub nonce: u64,
    pub revision_count: u64,
    pub votes_for: u64,
    pub votes_against: u64,
    pub votes_abstain: u64,
    pub judge_approve: u8,
    pub judge_reject: u8,
    pub judge_needs: u8,
    pub final_verdict: u8,
    pub proposal_text: String,
}

/// One immutable entry of a proposal's amendment history.
#[derive(Clone, Debug)]
pub struct ProposalRevision {
    pub proposal: Pubkey,
    pub revision_number: u64,
    pub text: String,
}

/// The vote of one voter on one proposal.
#[derive(Clone, Copy, Debug)]
pub struct VoteRecord {
    pub proposal: Pubkey,
    pub voter: Pubkey,
    pub choice: u8,
}

/// The verdict of one judge on one proposal.
#[derive(Clone, Copy, Debug)]
pub struct JudgeResult {
    pub proposal: Pubkey,
    pub judge: Pubkey,
    pub verdict: u8,
}

/// The treasury disbursement that a finalized proposal leads to.
#[derive(Clone, Copy, Debug)]
pub struct ActionRequest {
    pub proposal: Pubkey,
    pub status: u8,
    pub amount_lamports: u64,
    pub recipient: Pubkey,
    pub executor: Pubkey,
}

impl Proposal {
    /// Number of judge verdicts received so far.
    pub open spec fn judge_total(&self) -> int {
        self.judge_approve + self.judge_reject + self.judge_needs
    }

    /// The proposal's invariant: at least its first revision exists, the
    /// judge quorum is never exceeded, and a final verdict is present exactly
    /// when the proposal is finalized.
    pub open spec fn wf(&self) -> bool {
        &&& self.revision_count >= 1
        &&& self.judge_total() <= JUDGE_QUORUM
        &&& (self.status == PROPOSAL_OPEN && self.final_verdict == VERDICT_NONE) || (self.status
            == PROPOSAL_FINALIZED && 1 <= self.final_verdict <= 3)
    }

    /// Bytes the ledger reserves for one proposal record.
    pub fn space() -> (r: usize)
        ensures
            r == 8 + 32 + 1 + 8 + 8 + 8 + 8 + 8 + 1 + 1 + 1 + 1 + 4 + MAX_GOV_PROPOSAL_TEXT_LEN,
    {
        8 + 32 + 1 + 8 + 8 + 8 + 8 + 8 + 1 + 1 + 1 + 1 + 4 + MAX_GOV_PROPOSAL_TEXT_LEN
    }
}

impl ProposalRevision {
    /// Bytes the ledger reserves for one revision record.
    pub fn space() -> (r: usize)
        ensures
            r == 8 + 32 + 8 + 4 + MAX_REVISION_TEXT_LEN,
    {
        8 + 32 + 8 + 4 + MAX_REVISION_TEXT_LEN
    }
}

impl VoteRecord {
    /// Bytes the ledger reserves for one vote record.
    pub fn space() -> (r: usize)
        ensures
            r == 8 + 32 + 32 + 1,
    {
        8 + 32 + 32 + 1
    }
}

impl JudgeResult {
    /// Bytes the ledger reserves for one judge result.
    pub fn space() -> (r: usize)
        ensures
            r == 8 + 32 + 32 + 1,
    {
        8 + 32 + 32 + 1
    }
}

impl ActionRequest {
    /// Bytes the ledger reserves for one action request.
    pub fn space() -> (r: usize)
        ensures
            r == 8 + 32 + 1 + 8 + 32 + 32,
    {
        8 + 32 + 1 + 8 + 32 + 32
    }
}

/// The first check that refuses a new proposal, if any.
pub open spec fn create_proposal_error(proposal_text: &String, revision_number: u64) -> Option<
    ErrorCode,
> {
    if byte_len(proposal_text) > MAX_GOV_PROPOSAL_TEXT_LEN {
        Some(ErrorCode::GovernanceTextTooLong)
    } else if revision_number != 0 {
        Some(ErrorCode::BadRevisionNumber)
    } else {
        None
    }
}

/// `p` is a freshly created proposal: first revision in place, every tally
/// zero, no verdict.
pub open spec fn is_new_proposal(p: Proposal, owner: Pubkey, proposal_text: String, nonce: u64) -> bool {
    &&& p.authority == owner
    &&& p.status == PROPOSAL_OPEN
    &&& p.nonce == nonce
    &&& p.revision_count == 1
    &&& p.votes_for == 0 && p.votes_against == 0 && p.votes_abstain == 0
    &&& p.judge_approve == 0 && p.judge_reject == 0 && p.judge_needs == 0
    &&& p.final_verdict == VERDICT_NONE
    &&& p.proposal_text == proposal_text
}

/// Creates a proposal stored at `proposal_key`, together with its revision 0.
pub fn create_governance_proposal(
    proposal_key: Pubkey,
    owner: Pubkey,
    proposal_text: String,
    revision_number: u64,
    nonce: u64,
) -> (r: Result<(Proposal, ProposalRevision), ErrorCode>)
    ensures
        match r {
            Ok((p, rev)) => {
                &&& create_proposal_error(&proposal_text, revision_number) is None
                &&& is_new_proposal(p, owner, proposal_text, nonce)
                &&& p.wf()
                &&& rev == (ProposalRevision {
                    proposal: proposal_key,
                    revision_number: 0,
                    text: proposal_text,
                })
            },
            Err(e) => create_proposal_error(&proposal_text, revision_number) == Some(e),
        },
{
    if !fits(&proposal_text, MAX_GOV_PROPOSAL_TEXT_LEN) {
        return Err(ErrorCode::GovernanceTextTooLong);
    }
    if revision_number != 0 {
        return Err(ErrorCode::BadRevisionNumber);
    }
    let p = Proposal {
        authority: owner,
        status: PROPOSAL_OPEN,
        nonce,
        revision_count: 1,
        votes_for: 0,
        votes_against: 0,
        votes_abstain: 0,
        judge_approve: 0,
        judge_reject: 0,
        judge_needs: 0,
        final_verdict: VERDICT_NONE,
        proposal_text: proposal_text.clone(),
    };
    let rev = ProposalRevision { proposal: proposal_key, revision_number: 0, text: proposal_text };
    Ok((p, rev))
}

/// The first check that refuses a revision, if any.
pub open spec fn add_revision_error(
    p: Proposal,
    user: Pubkey,
    revision_number: u64,
    revision_text: &String,
) -> Option<ErrorCode> {
    if byte_len(revision_text) > MAX_REVISION_TEXT_LEN {
        Some(ErrorCode::GovernanceTextTooLong)
    } else if p.status != PROPOSAL_OPEN {
        Some(ErrorCode::AlreadyFinalized)
    } else if revision_number != p.revision_count {
        Some(ErrorCode::BadRevisionNumber)
    } else if p.authority@ != user@ {
        Some(ErrorCode::NotAuthority)
    } else if p.revision_count == u64::MAX {
        Some(ErrorCode::CounterOverflow)
    } else {
        None
    }
}

/// The proposal after an accepted revision.
pub open spec fn revised(p: Proposal, revision_text: String) -> Proposal {
    Proposal { revision_count: (p.revision_count + 1) as u64, proposal_text: revision_text, ..p }
}

/// The owner amends an open proposal. The revision number must be the next
/// one in sequence; the new text becomes the proposal's current text.
pub fn add_revision(
    p: &mut Proposal,
    proposal_key: Pubkey,
    user: Pubkey,
    revision_number: u64,
    revision_text: String,
) -> (r: Result<ProposalRevision, ErrorCode>)
    ensures
        match add_revision_error(*old(p), user, revision_number, &revision_text) {
            Some(e) => r == Err::<ProposalRevision, ErrorCode>(e) && *final(p) == *old(p),
            None => {
                &&& *final(p) == revised(*old(p), revision_text)
                &&& r == Ok::<ProposalRevision, ErrorCode>(
                    ProposalRevision {
                        proposal: proposal_key,
                        revision_number,
                        text: revision_text,
                    },
                )
            },
        },
        old(p).wf() ==> final(p).wf(),
{
    if !fits(&revision_text, MAX_REVISION_TEXT_LEN) {
        return Err(ErrorCode::GovernanceTextTooLong);
    }
    if p.status != PROPOSAL_OPEN {
        return Err(ErrorCode::AlreadyFinalized);
    }
    if revision_number != p.revision_count {
        return Err(ErrorCode::BadRevisionNumber);
    }
    if !p.authority.same_as(&user) {
        return Err(ErrorCode::NotAuthority);
    }
    if p.revision_count == u64::MAX {
        return Err(ErrorCode::CounterOverflow);
    }
    p.revision_count = p.revision_count + 1;
    p.proposal_text = revision_text.clone();
    Ok(ProposalRevision { proposal: proposal_key, revision_number, text: revision_text })
}

/// Replays a series of revision attempts `(user, revision_number, text)` on
/// `p`: the resulting proposal and the revision numbers that were accepted.
pub open spec fn replay_revisions(p: Proposal, calls: Seq<(Pubkey, u64, String)>) -> (
    Proposal,
    Seq<u64>,
)
    decreases calls.len(),
{
    if calls.len() == 0 {
        (p, Seq::empty())
    } else {
        let (q, accepted) = replay_revisions(p, calls.drop_last());
        let c = calls.last();
        if add_revision_error(q, c.0, c.1, &c.2) is None {
            (revised(q, c.2), accepted.push(c.1))
        } else {
            (q, accepted)
        }
    }
}

/// Revision numbers are accepted in strict sequence: whatever is attempted,
/// the accepted numbers continue the proposal's count without gap or repeat
/// (1, 2, 3, ... for a new proposal), and the count grows by one for each.
pub proof fn accepted_revisions_are_consecutive(
    p: Proposal,
    calls: Seq<(Pubkey, u64, String)>,
)
    ensures
        ({
            let (q, accepted) = replay_revisions(p, calls);
            &&& q.revision_count == p.revision_count + accepted.len()
            &&& forall|i: int|
                0 <= i < accepted.len() ==> accepted[i] == p.revision_count + i
        }),
    decreases calls.len(),
{
    if calls.len() > 0 {
        accepted_revisions_are_consecutive(p, calls.drop_last());
    }
}

/// The first check that refuses a vote, if any. A voter's second vote on the
/// same proposal is refused before anything else, since its record's slot is
/// taken.
pub open spec fn cast_vote_error(
    p: Proposal,
    proposal_key: Pubkey,
    votes: Set<(Seq<u8>, Seq<u8>)>,
    voter: Pubkey,
    choice: u8,
) -> Option<ErrorCode> {
    if votes.contains((proposal_key@, voter@)) {
        Some(ErrorCode::AccountAlreadyInUse)
    } else if p.status != PROPOSAL_OPEN {
        Some(ErrorCode::AlreadyFinalized)
    } else if !(1 <= choice <= 3) {
        Some(ErrorCode::BadVoteChoice)
    } else if (choice == VOTE_FOR && p.votes_for == u64::MAX) || (choice == VOTE_AGAINST
        && p.votes_against == u64::MAX) || (choice == VOTE_ABSTAIN && p.votes_abstain
        == u64::MAX) {
        Some(ErrorCode::CounterOverflow)
    } else {
        None
    }
}

/// The proposal after a counted vote.
pub open spec fn with_vote(p: Proposal, choice: u8) -> Proposal {
    if choice == VOTE_FOR {
        Proposal { votes_for: (p.votes_for + 1) as u64, ..p }
    } else if choice == VOTE_AGAINST {
        Proposal { votes_against: (p.votes_against + 1) as u64, ..p }
    } else {
        Proposal { votes_abstain: (p.votes_abstain + 1) as u64, ..p }
    }
}

/// `voter` votes on the open proposal stored at `proposal_key`; `votes` holds
/// the vote slots already taken.
pub fn cast_vote(
    p: &mut Proposal,
    proposal_key: Pubkey,
    votes: &mut SlotRegistry,
    voter: Pubkey,
    choice: u8,
) -> (r: Result<VoteRecord, ErrorCode>)
    ensures
        match cast_vote_error(*old(p), proposal_key, old(votes)@, voter, choice) {
            Some(e) => {
                &&& r == Err::<VoteRecord, ErrorCode>(e)
                &&& *final(p) == *old(p)
                &&& final(votes)@ == old(votes)@
            },
            None => {
                &&& r == Ok::<VoteRecord, ErrorCode>(
                    VoteRecord { proposal: proposal_key, voter, choice },
                )
                &&& *final(p) == with_vote(*old(p), choice)
                &&& final(votes)@ == old(votes)@.insert((proposal_key@, voter@))
            },
        },
        old(p).wf() ==> final(p).wf(),
{
    if votes.contains(&proposal_key, &voter) {
        return Err(ErrorCode::AccountAlreadyInUse);
    }
    if p.status != PROPOSAL_OPEN {
        return Err(ErrorCode::AlreadyFinalized);
    }
    if !(choice >= 1 && choice <= 3) {
        return Err(ErrorCode::BadVoteChoice);
    }
    if choice == VOTE_FOR {
        if p.votes_for == u64::MAX {
            return Err(ErrorCode::CounterOverflow);
        }
        p.votes_for = p.votes_for + 1;
    } else if choice == VOTE_AGAINST {
        if p.votes_against == u64::MAX {
            return Err(ErrorCode::CounterOverflow);
        }
        p.votes_against = p.votes_against + 1;
    } else {
        if p.votes_abstain == u64::MAX {
            return Err(ErrorCode::CounterOverflow);
        }
        p.votes_abstain = p.votes_abstain + 1;
    }
    let claimed = votes.claim(proposal_key, voter);
    assert(claimed is Ok);
    Ok(VoteRecord { proposal: proposal_key, voter, choice })
}

/// A vote never overwrites an earlier one: once a voter's vote on a proposal
/// is recorded, any later vote by the same voter on it fails at the creation
/// of its record and leaves the tallies as they are.
pub proof fn duplicate_vote_is_refused(
    p: Proposal,
    proposal_key: Pubkey,
    votes: Set<(Seq<u8>, Seq<u8>)>,
    voter: Pubkey,
    choice: u8,
    later: Proposal,
    later_choice: u8,
)
    requires
        cast_vote_error(p, proposal_key, votes, voter, choice) is None,
    ensures
        cast_vote_error(
            later,
            proposal_key,
            votes.insert((proposal_key@, voter@)),
            voter,
            later_choice,
        ) == Some(ErrorCode::AccountAlreadyInUse),
{
}

/// The first check that refuses a judge's verdict, if any. A judge's second
/// verdict on the same proposal is refused before anything else.
pub open spec fn submit_judge_error(
    p: Proposal,
    proposal_key: Pubkey,
    judges: Set<(Seq<u8>, Seq<u8>)>,
    judge: Pubkey,
    verdict: u8,
) -> Option<ErrorCode> {
    if judges.contains((proposal_key@, judge@)) {
        Some(ErrorCode::AccountAlreadyInUse)
    } else if p.status != PROPOSAL_OPEN {
        Some(ErrorCode::AlreadyFinalized)
    } else if !(1 <= verdict <= 3) {
        Some(ErrorCode::BadJudgeVerdict)
    } else if p.judge_total() >= JUDGE_QUORUM {
        Some(ErrorCode::TooManyJudges)
    } else {
        None
    }
}

/// The proposal after a counted judge verdict.
pub open spec fn with_judge_verdict(p: Proposal, verdict: u8) -> Proposal {
    if verdict == VERDICT_APPROVE {
        Proposal { judge_approve: (p.judge_approve + 1) as u8, ..p }
    } else if verdict == VERDICT_REJECT {
        Proposal { judge_reject: (p.judge_reject + 1) as u8, ..p }
    } else {
        Proposal { judge_needs: (p.judge_needs + 1) as u8, ..p }
    }
}

/// `judge` gives a verdict on the open proposal stored at `proposal_key`;
/// `judges` holds the judge slots already taken.
pub fn submit_judge_result(
    p: &mut Proposal,
    proposal_key: Pubkey,
    judges: &mut SlotRegistry,
    judge: Pubkey,
    verdict: u8,
) -> (r: Result<JudgeResult, ErrorCode>)
    ensures
        old(p).wf() ==> final(p).wf(),
        match submit_judge_error(*old(p), proposal_key, old(judges)@, judge, verdict) {
            Some(e) => {
                &&& r == Err::<JudgeResult, ErrorCode>(e)
                &&& *final(p) == *old(p)
                &&& final(judges)@ == old(judges)@
            },
            None => {
                &&& r == Ok::<JudgeResult, ErrorCode>(
                    JudgeResult { proposal: proposal_key, judge, verdict },
                )
                &&& *final(p) == with_judge_verdict(*old(p), verdict)
                &&& final(judges)@ == old(judges)@.insert((proposal_key@, judge@))
            },
        },
{
    if judges.contains(&proposal_key, &judge) {
        return Err(ErrorCode::AccountAlreadyInUse);
    }
    if p.status != PROPOSAL_OPEN {
        return Err(ErrorCode::AlreadyFinalized);
    }
    if !(verdict >= 1 && verdict <= 3) {
        return Err(ErrorCode::BadJudgeVerdict);
    }
    let total: u16 = p.judge_approve as u16 + p.judge_reject as u16 + p.judge_needs as u16;
    if total >= JUDGE_QUORUM as u16 {
        return Err(ErrorCode::TooManyJudges);
    }
    if verdict == VERDICT_APPROVE {
        p.judge_approve = p.judge_approve + 1;
    } else if verdict == VERDICT_REJECT {
        p.judge_reject = p.judge_reject + 1;
    } else {
        p.judge_needs = p.judge_needs + 1;
    }
    let claimed = judges.claim(proposal_key, judge);
    assert(claimed is Ok);
    Ok(JudgeResult { proposal: proposal_key, judge, verdict })
}

/// The judge quorum is a hard cap: a well-formed proposal never holds more
/// than three verdicts, and once it holds three, every further verdict is
/// refused (as too many judges, unless refused earlier for another reason).
pub proof fn judge_quorum_is_capped(
    p: Proposal,
    proposal_key: Pubkey,
    judges: Set<(Seq<u8>, Seq<u8>)>,
    judge: Pubkey,
    verdict: u8,
)
    requires
        p.wf(),
    ensures
        p.judge_total() <= 3,
        p.judge_total() == 3 ==> submit_judge_error(p, proposal_key, judges, judge, verdict)
            is Some,
        p.judge_total() == 3 && p.status == PROPOSAL_OPEN && 1 <= verdict <= 3
            && !judges.contains((proposal_key@, judge@)) ==> submit_judge_error(
            p,
            proposal_key,
            judges,
            judge,
            verdict,
        ) == Some(ErrorCode::TooManyJudges),
{
}

/// Majority rule over three judge verdicts: approve on two approvals or
/// more, else reject on two rejections or more, else needs revision.
pub open spec fn majority_verdict(p: Proposal) -> u8 {
    if p.judge_approve >= 2 {
        VERDICT_APPROVE
    } else if p.judge_reject >= 2 {
        VERDICT_REJECT
    } else {
        VERDICT_NEEDS_REVISION
    }
}

/// The tie-break policy: two or three approvals approve; otherwise two or
/// three rejections reject; only a split with no two-of-three majority falls
/// through to needs revision.
pub proof fn majority_rule(p: Proposal)
    ensures
        majority_verdict(p) == VERDICT_APPROVE <==> p.judge_approve >= 2,
        majority_verdict(p) == VERDICT_REJECT <==> p.judge_reject >= 2 && p.judge_approve < 2,
        majority_verdict(p) == VERDICT_NEEDS_REVISION <==> p.judge_approve < 2 && p.judge_reject
            < 2,
        finalize_consensus_error(p) is None <==> p.status == PROPOSAL_OPEN && p.judge_total() == 3,
{
}

/// The first check that refuses to finalize, if any.
pub open spec fn finalize_consensus_error(p: Proposal) -> Option<ErrorCode> {
    if p.status != PROPOSAL_OPEN {
        Some(ErrorCode::AlreadyFinalized)
    } else if p.judge_total() != JUDGE_QUORUM {
        Some(ErrorCode::NotEnoughJudges)
    } else {
        None
    }
}

/// Closes a proposal that has its full judge quorum, records the majority
/// verdict and creates its action request: pending (to be paid) when
/// approved, rejected otherwise.
pub fn finalize_consensus(p: &mut Proposal, proposal_key: Pubkey) -> (r: Result<
    ActionRequest,
    ErrorCode,
>)
    ensures
        old(p).wf() ==> final(p).wf(),
        match finalize_consensus_error(*old(p)) {
            Some(e) => r == Err::<ActionRequest, ErrorCode>(e) && *final(p) == *old(p),
            None => {
                &&& *final(p) == (Proposal {
                    final_verdict: majority_verdict(*old(p)),
                    status: PROPOSAL_FINALIZED,
                    ..*old(p)
                })
                &&& r is Ok
                &&& r->Ok_0.proposal == proposal_key
                &&& r->Ok_0.status == if majority_verdict(*old(p)) == VERDICT_APPROVE {
                    ACTION_PENDING
                } else {
                    ACTION_REJECTED
                }
                &&& r->Ok_0.amount_lamports == ACTION_LAMPORTS
                &&& r->Ok_0.recipient == old(p).authority
                &&& r->Ok_0.executor@ == zero_bytes()
            },
        },
{
    if p.status != PROPOSAL_OPEN {
        return Err(ErrorCode::AlreadyFinalized);
    }
    let total: u16 = p.judge_approve as u16 + p.judge_reject as u16 + p.judge_needs as u16;
    if total != JUDGE_QUORUM as u16 {
        return Err(ErrorCode::NotEnoughJudges);
    }
    let verdict: u8 = if p.judge_approve >= 2 {
        VERDICT_APPROVE
    } else if p.judge_reject >= 2 {
        VERDICT_REJECT
    } else {
        VERDICT_NEEDS_REVISION
    };
    p.final_verdict = verdict;
    p.status = PROPOSAL_FINALIZED;
    Ok(ActionRequest {
        proposal: proposal_key,
        status: if verdict == VERDICT_APPROVE {
            ACTION_PENDING
        } else {
            ACTION_REJECTED
        },
        amount_lamports: ACTION_LAMPORTS,
        recipient: p.authority,
        executor: Pubkey::default_key(),
    })
}

/// The first check that refuses to execute an action, if any.
pub open spec fn complete_action_error(p: Proposal, action: ActionRequest, recipient: Pubkey) -> Option<
    ErrorCode,
> {
    if p.final_verdict != VERDICT_APPROVE {
        Some(ErrorCode::ActionNotApproved)
    } else if action.status != ACTION_PENDING {
        Some(ErrorCode::ActionNotPending)
    } else if action.recipient@ != recipient@ {
        Some(ErrorCode::BadRecipient)
    } else {
        None
    }
}

/// Executes the pending action of an approved proposal: returns the payment
/// out of the treasury vault `vault` to the recorded recipient, and marks the
/// action executed by `executor`.
pub fn complete_action(
    p: &Proposal,
    action: &mut ActionRequest,
    vault: Pubkey,
    recipient: Pubkey,
    executor: Pubkey,
) -> (r: Result<Transfer, ErrorCode>)
    ensures
        match complete_action_error(*p, *old(action), recipient) {
            Some(e) => r == Err::<Transfer, ErrorCode>(e) && *final(action) == *old(action),
            None => {
                &&& r == Ok::<Transfer, ErrorCode>(
                    Transfer { from: vault, to: recipient, amount: old(action).amount_lamports },
                )
                &&& *final(action) == (ActionRequest {
                    status: ACTION_EXECUTED,
                    executor,
                    ..*old(action)
                })
            },
        },
{
    if p.final_verdict != VERDICT_APPROVE {
        return Err(ErrorCode::ActionNotApproved);
    }
    if action.status != ACTION_PENDING {
        return Err(ErrorCode::ActionNotPending);
    }
    if !action.recipient.same_as(&recipient) {
        return Err(ErrorCode::BadRecipient);
    }
    action.status = ACTION_EXECUTED;
    action.executor = executor;
    Ok(Transfer { from: vault, to: recipient, amount: action.amount_lamports })
}

/// An action is paid at most once: after a successful execution, any further
/// attempt on the same action fails as not pending.
pub proof fn action_executes_once(
    p: Proposal,
    action: ActionRequest,
    recipient: Pubkey,
    executor: Pubkey,
    later_recipient: Pubkey,
)
    requires
        complete_action_error(p, action, recipient) is None,
    ensures
        complete_action_error(
            p,
            ActionRequest { status: ACTION_EXECUTED, executor, ..action },
            later_recipient,
        ) == Some(ErrorCode::ActionNotPending),
{
}

} // verus!
