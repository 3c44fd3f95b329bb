use vstd::prelude::*;
use crate::error::ErrorCode;
use crate::key::{Pubkey, zero_bytes, zero_hash};
use crate::limits::{
    MAX_CRITERIA_LEN,
    MAX_INPUT_LEN,
    MAX_MODEL_ID_LEN,
    MAX_PROPOSAL_ID_LEN,
    MAX_PROPOSAL_TEXT_LEN,
    MAX_SOURCE_LEN,
};
use crate::relay::{Config, authorize_relayer};
use crate::text::{byte_len, fits};

verus! {

pub const REQUEST_PENDING: u8 = 0;
pub const REQUEST_FULFILLED: u8 = 1;

/// A request for the relayer to judge between two inputs against a criteria.
#[derive(Clone, Debug)]
pub struct JudgeRequest {
    pub authority: Pubkey,
    pub status: u8,
    pub nonce: u64,
    pub decision: u8,
    pub response_hash: [u8; 32],
    pub receipt_root: [u8; 32],
    pub criteria: String,
    pub input_a: String,
    pub input_b: String,
}

/// A request for the relayer to assess a proposal text.
#[derive(Clone, Debug)]
pub struct ProposalRequest {
    pub authority: Pubkey,
    pub status: u8,
    pub nonce: u64,
    pub verdict_code: u8,
    pub summary_hash: [u8; 32],
    pub receipt_root: [u8; 32],
    pub prompt_hash: [u8; 32],
    pub model_id: String,
    pub source: String,
    pub proposal_id: String,
    pub proposal_text: String,
}

impl JudgeRequest {
    /// The request's invariant: its outcome is unset while pending and in
    /// range once fulfilled.
    pub open spec fn wf(&self) -> bool {
        ||| self.status == REQUEST_PENDING && self.decision == 0 && self.response_hash@
            == zero_bytes() && self.receipt_root@ == zero_bytes()
        ||| self.status == REQUEST_FULFILLED && 1 <= self.decision <= 3
    }

    /// Bytes the ledger reserves for one judge request.
    pub fn space() -> (r: usize)
        ensures
            r == 8 + 32 + 1 + 8 + 1 + 32 + 32 + 4 + MAX_CRITERIA_LEN + 4 + MAX_INPUT_LEN + 4
                + MAX_INPUT_LEN,
    {
        8 + 32 + 1 + 8 + 1 + 32 + 32 + 4 + MAX_CRITERIA_LEN + 4 + MAX_INPUT_LEN + 4 + MAX_INPUT_LEN
    }
}

impl ProposalRequest {
    /// The request's invariant: its outcome is unset while pending and in
    /// range once fulfilled.
    pub open spec fn wf(&self) -> bool {
        ||| self.status == REQUEST_PENDING && self.verdict_code == 0 && self.summary_hash@
            == zero_bytes() && self.receipt_root@ == zero_bytes() && self.prompt_hash@
            == zero_bytes() && self.model_id@ == Seq::<char>::empty()
        ||| self.status == REQUEST_FULFILLED && 1 <= self.verdict_code <= 3
    }

    /// Bytes the ledger reserves for one proposal request.
    pub fn space() -> (r: usize)
        ensures
            r == 8 + 32 + 1 + 8 + 1 + 32 + 32 + 32 + 4 + MAX_MODEL_ID_LEN + 4 + MAX_SOURCE_LEN + 4
                + MAX_PROPOSAL_ID_LEN + 4 + MAX_PROPOSAL_TEXT_LEN,
    {
        8 + 32 + 1 + 8 + 1 + 32 + 32 + 32 + 4 + MAX_MODEL_ID_LEN + 4 + MAX_SOURCE_LEN + 4
            + MAX_PROPOSAL_ID_LEN + 4 + MAX_PROPOSAL_TEXT_LEN
    }
}

/// The first check that refuses a judge request, if any.
pub open spec fn create_judge_error(criteria: &String, input_a: &String, input_b: &String) -> Option<
    ErrorCode,
> {
    if byte_len(criteria) > MAX_CRITERIA_LEN {
        Some(ErrorCode::CriteriaTooLong)
    } else if byte_len(input_a) > MAX_INPUT_LEN || byte_len(input_b) > MAX_INPUT_LEN {
        Some(ErrorCode::InputTooLong)
    } else {
        None
    }
}

/// Creates a pending judge request owned by `owner`, its outcome unset.
pub fn create_judge_request(
    owner: Pubkey,
    criteria: String,
    input_a: String,
    input_b: String,
    nonce: u64,
) -> (r: Result<JudgeRequest, ErrorCode>)
    ensures
        match create_judge_error(&criteria, &input_a, &input_b) {
            Some(e) => r == Err::<JudgeRequest, ErrorCode>(e),
            None => {
                &&& r is Ok
                &&& r->Ok_0.wf()
                &&& r->Ok_0.authority == owner
                &&& r->Ok_0.status == REQUEST_PENDING
                &&& r->Ok_0.nonce == nonce
                &&& r->Ok_0.decision == 0
                &&& r->Ok_0.response_hash@ == zero_bytes()
                &&& r->Ok_0.receipt_root@ == zero_bytes()
                &&& r->Ok_0.criteria == criteria
                &&& r->Ok_0.input_a == input_a
                &&& r->Ok_0.input_b == input_b
            },
        },
{
    if !fits(&criteria, MAX_CRITERIA_LEN) {
        return Err(ErrorCode::CriteriaTooLong);
    }
    if !fits(&input_a, MAX_INPUT_LEN) {
        return Err(ErrorCode::InputTooLong);
    }
    if !fits(&input_b, MAX_INPUT_LEN) {
        return Err(ErrorCode::InputTooLong);
    }
    Ok(
        JudgeRequest {
            authority: owner,
            status: REQUEST_PENDING,
            nonce,
            decision: 0,
            response_hash: zero_hash(),
            receipt_root: zero_hash(),
            criteria,
            input_a,
            input_b,
        },
    )
}

/// The first check that refuses to fulfill a judge request, if any.
pub open spec fn fulfill_judge_error(
    config: Config,
    relayer: Pubkey,
    req: JudgeRequest,
    decision: u8,
) -> Option<ErrorCode> {
    if config.relayer@ != relayer@ {
        Some(ErrorCode::BadRelayer)
    } else if req.status != REQUEST_PENDING {
        Some(ErrorCode::AlreadyFulfilled)
    } else if !(1 <= decision <= 3) {
        Some(ErrorCode::BadDecision)
    } else {
        None
    }
}

/// The judge request once its outcome is written.
pub open spec fn judged(
    req: JudgeRequest,
    decision: u8,
    response_hash: [u8; 32],
    receipt_root: [u8; 32],
) -> JudgeRequest {
    JudgeRequest { decision, response_hash, receipt_root, status: REQUEST_FULFILLED, ..req }
}

/// The relayer writes the outcome of a pending judge request.
pub fn fulfill_judge_request(
    config: &Config,
    relayer: &Pubkey,
    req: &mut JudgeRequest,
    decision: u8,
    response_hash: [u8; 32],
    receipt_root: [u8; 32],
) -> (r: Result<(), ErrorCode>)
    ensures
        old(req).wf() ==> final(req).wf(),
        match fulfill_judge_error(*config, *relayer, *old(req), decision) {
            Some(e) => r == Err::<(), ErrorCode>(e) && *final(req) == *old(req),
            None => r is Ok && *final(req) == judged(
                *old(req),
                decision,
                response_hash,
                receipt_root,
            ),
        },
{
    authorize_relayer(config, relayer)?;
    if req.status != REQUEST_PENDING {
        return Err(ErrorCode::AlreadyFulfilled);
    }
    if !(decision >= 1 && decision <= 3) {
        return Err(ErrorCode::BadDecision);
    }
    req.decision = decision;
    req.response_hash = response_hash;
    req.receipt_root = receipt_root;
    req.status = REQUEST_FULFILLED;
    Ok(())
}

/// A judge request is fulfilled at most once: after a successful fulfillment,
/// every later attempt by the relayer fails as already fulfilled (and, by the
/// contract of the fulfilling function, leaves the outcome untouched).
pub proof fn judge_request_fulfilled_once(
    config: Config,
    req: JudgeRequest,
    decision: u8,
    response_hash: [u8; 32],
    receipt_root: [u8; 32],
    later_decision: u8,
)
    requires
        fulfill_judge_error(config, config.relayer, req, decision) is None,
    ensures
        fulfill_judge_error(
            config,
            config.relayer,
            judged(req, decision, response_hash, receipt_root),
            later_decision,
        ) == Some(ErrorCode::AlreadyFulfilled),
{
}

/// The first check that refuses a proposal request, if any.
pub open spec fn create_proposal_request_error(
    source: &String,
    proposal_id: &String,
    proposal_text: &String,
) -> Option<ErrorCode> {
    if byte_len(source) > MAX_SOURCE_LEN {
        Some(ErrorCode::SourceTooLong)
    } else if byte_len(proposal_id) > MAX_PROPOSAL_ID_LEN {
        Some(ErrorCode::ProposalIdTooLong)
    } else if byte_len(proposal_text) > MAX_PROPOSAL_TEXT_LEN {
        Some(ErrorCode::ProposalTooLong)
    } else {
        None
    }
}

/// Creates a pending proposal request owned by `owner`, its outcome unset.
pub fn create_proposal_request(
    owner: Pubkey,
    source: String,
    proposal_id: String,
    proposal_text: String,
    nonce: u64,
) -> (r: Result<ProposalRequest, ErrorCode>)
    ensures
        match create_proposal_request_error(&source, &proposal_id, &proposal_text) {
            Some(e) => r == Err::<ProposalRequest, ErrorCode>(e),
            None => {
                &&& r is Ok
                &&& r->Ok_0.wf()
                &&& r->Ok_0.authority == owner
                &&& r->Ok_0.status == REQUEST_PENDING
                &&& r->Ok_0.nonce == nonce
                &&& r->Ok_0.verdict_code == 0
                &&& r->Ok_0.summary_hash@ == zero_bytes()
                &&& r->Ok_0.receipt_root@ == zero_bytes()
                &&& r->Ok_0.prompt_hash@ == zero_bytes()
                &&& r->Ok_0.model_id@ == Seq::<char>::empty()
                &&& r->Ok_0.source == source
                &&& r->Ok_0.proposal_id == proposal_id
                &&& r->Ok_0.proposal_text == proposal_text
            },
        },
{
    if !fits(&source, MAX_SOURCE_LEN) {
        return Err(ErrorCode::SourceTooLong);
    }
    if !fits(&proposal_id, MAX_PROPOSAL_ID_LEN) {
        return Err(ErrorCode::ProposalIdTooLong);
    }
    if !fits(&proposal_text, MAX_PROPOSAL_TEXT_LEN) {
        return Err(ErrorCode::ProposalTooLong);
    }
    Ok(
        ProposalRequest {
            authority: owner,
            status: REQUEST_PENDING,
            nonce,
            verdict_code: 0,
            summary_hash: zero_hash(),
            receipt_root: zero_hash(),
            prompt_hash: zero_hash(),
            model_id: String::new(),
            source,
            proposal_id,
            proposal_text,
        },
    )
}

/// The first check that refuses to fulfill a proposal request, if any.
pub open spec fn fulfill_proposal_error(
    config: Config,
    relayer: Pubkey,
    req: ProposalRequest,
    verdict_code: u8,
    model_id: &String,
) -> Option<ErrorCode> {
    if config.relayer@ != relayer@ {
        Some(ErrorCode::BadRelayer)
    } else if req.status != REQUEST_PENDING {
        Some(ErrorCode::AlreadyFulfilled)
    } else if !(1 <= verdict_code <= 3) {
        Some(ErrorCode::BadVerdict)
    } else if byte_len(model_id) > MAX_MODEL_ID_LEN {
        Some(ErrorCode::ModelIdTooLong)
    } else {
        None
    }
}

/// The proposal request once its outcome is written.
pub open spec fn assessed(
    req: ProposalRequest,
    verdict_code: u8,
    summary_hash: [u8; 32],
    receipt_root: [u8; 32],
    prompt_hash: [u8; 32],
    model_id: String,
) -> ProposalRequest {
    ProposalRequest {
        verdict_code,
        summary_hash,
        receipt_root,
        prompt_hash,
        model_id,
        status: REQUEST_FULFILLED,
        ..req
    }
}

/// The relayer writes the outcome of a pending proposal request.
pub fn fulfill_proposal_request(
    config: &Config,
    relayer: &Pubkey,
    req: &mut ProposalRequest,
    verdict_code: u8,
    summary_hash: [u8; 32],
    receipt_root: [u8; 32],
    prompt_hash: [u8; 32],
    model_id: String,
) -> (r: Result<(), ErrorCode>)
    ensures
        old(req).wf() ==> final(req).wf(),
        match fulfill_proposal_error(*config, *relayer, *old(req), verdict_code, &model_id) {
            Some(e) => r == Err::<(), ErrorCode>(e) && *final(req) == *old(req),
            None => r is Ok && *final(req) == assessed(
                *old(req),
                verdict_code,
                summary_hash,
                receipt_root,
                prompt_hash,
                model_id,
            ),
        },
{
    authorize_relayer(config, relayer)?;
    if req.status != REQUEST_PENDING {
        return Err(ErrorCode::AlreadyFulfilled);
    }
    if !(verdict_code >= 1 && verdict_code <= 3) {
        return Err(ErrorCode::BadVerdict);
    }
    if !fits(&model_id, MAX_MODEL_ID_LEN) {
        return Err(ErrorCode::ModelIdTooLong);
    }
    req.verdict_code = verdict_code;
    req.summary_hash = summary_hash;
    req.receipt_root = receipt_root;
    req.prompt_hash = prompt_hash;
    req.model_id = model_id;
    req.status = REQUEST_FULFILLED;
    Ok(())
}

/// A proposal request is fulfilled at most once: after a successful
/// fulfillment, every later attempt by the relayer fails as already fulfilled.
pub proof fn proposal_request_fulfilled_once(
    config: Config,
    req: ProposalRequest,
    verdict_code: u8,
    summary_hash: [u8; 32],
    receipt_root: [u8; 32],
    prompt_hash: [u8; 32],
    model_id: String,
    later_verdict_code: u8,
    later_model_id: String,
)
    requires
        fulfill_proposal_error(config, config.relayer, req, verdict_code, &model_id) is None,
    ensures
        fulfill_proposal_error(
            config,
            config.relayer,
            assessed(req, verdict_code, summary_hash, receipt_root, prompt_hash, model_id),
            later_verdict_code,
            &later_model_id,
        ) == Some(ErrorCode::AlreadyFulfilled),
{
}

} // verus!
