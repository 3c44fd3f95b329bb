use ambient_svm_hello::error::ErrorCode;
use ambient_svm_hello::key::Pubkey;
use ambient_svm_hello::relay::{authorize_relayer, init_config, Config};
use ambient_svm_hello::request::{
    create_judge_request, create_proposal_request, fulfill_judge_request,
    fulfill_proposal_request, JudgeRequest, ProposalRequest, REQUEST_FULFILLED, REQUEST_PENDING,
};

fn key(n: u8) -> Pubkey {
    Pubkey::new([n; 32])
}

fn config() -> Config {
    Config { admin: key(1), relayer: key(2) }
}

fn judge_request() -> JudgeRequest {
    create_judge_request(key(5), "pick the kinder answer".to_string(), "a".to_string(), "b".to_string(), 7)
        .unwrap()
}

fn proposal_request() -> ProposalRequest {
    create_proposal_request(key(5), "forum".to_string(), "prop-1".to_string(), "fund it".to_string(), 9)
        .unwrap()
}

#[test]
fn config_is_set_once() {
    let mut slot: Option<Config> = None;
    assert_eq!(init_config(&mut slot, key(1), key(2)), Ok(()));
    assert_eq!(slot.unwrap().admin, key(1));
    assert_eq!(slot.unwrap().relayer, key(2));
    assert_eq!(init_config(&mut slot, key(3), key(4)), Err(ErrorCode::AccountAlreadyInUse));
    assert_eq!(slot.unwrap().relayer, key(2));
}

#[test]
fn only_the_configured_relayer_is_authorized() {
    let cfg = config();
    assert_eq!(authorize_relayer(&cfg, &key(2)), Ok(()));
    assert_eq!(authorize_relayer(&cfg, &key(1)), Err(ErrorCode::BadRelayer));
}

#[test]
fn keys_compare_by_every_byte() {
    let mut bytes = [9u8; 32];
    assert_eq!(key(9), Pubkey::new(bytes));
    bytes[31] = 8;
    assert_ne!(key(9), Pubkey::new(bytes));
    assert_eq!(Pubkey::default_key(), key(0));
}

#[test]
fn new_judge_request_is_pending_and_unset() {
    let r = judge_request();
    assert_eq!(r.authority, key(5));
    assert_eq!(r.status, REQUEST_PENDING);
    assert_eq!(r.nonce, 7);
    assert_eq!(r.decision, 0);
    assert_eq!(r.response_hash, [0u8; 32]);
    assert_eq!(r.receipt_root, [0u8; 32]);
    assert_eq!(r.criteria, "pick the kinder answer");
}

#[test]
fn criteria_of_600_bytes_is_too_long() {
    let r = create_judge_request(key(5), "x".repeat(600), "a".to_string(), "b".to_string(), 1);
    assert_eq!(r.err(), Some(ErrorCode::CriteriaTooLong));
}

#[test]
fn criteria_at_the_ceiling_is_accepted() {
    let r = create_judge_request(key(5), "x".repeat(512), "a".to_string(), "b".to_string(), 1);
    assert!(r.is_ok());
}

#[test]
fn text_ceilings_count_bytes_not_characters() {
    // 257 two-byte characters: 514 bytes.
    let r = create_judge_request(key(5), "é".repeat(257), "a".to_string(), "b".to_string(), 1);
    assert_eq!(r.err(), Some(ErrorCode::CriteriaTooLong));
    let r = create_judge_request(key(5), "é".repeat(256), "a".to_string(), "b".to_string(), 1);
    assert!(r.is_ok());
}

#[test]
fn judge_inputs_are_bounded() {
    let r = create_judge_request(key(5), "c".to_string(), "a".repeat(513), "b".to_string(), 1);
    assert_eq!(r.err(), Some(ErrorCode::InputTooLong));
    let r = create_judge_request(key(5), "c".to_string(), "a".to_string(), "b".repeat(513), 1);
    assert_eq!(r.err(), Some(ErrorCode::InputTooLong));
}

#[test]
fn relayer_fulfills_judge_request() {
    let mut r = judge_request();
    assert_eq!(fulfill_judge_request(&config(), &key(2), &mut r, 2, [3u8; 32], [4u8; 32]), Ok(()));
    assert_eq!(r.status, REQUEST_FULFILLED);
    assert_eq!(r.decision, 2);
    assert_eq!(r.response_hash, [3u8; 32]);
    assert_eq!(r.receipt_root, [4u8; 32]);
}

#[test]
fn judge_request_is_fulfilled_at_most_once() {
    let mut r = judge_request();
    assert_eq!(fulfill_judge_request(&config(), &key(2), &mut r, 1, [3u8; 32], [4u8; 32]), Ok(()));
    assert_eq!(
        fulfill_judge_request(&config(), &key(2), &mut r, 3, [7u8; 32], [8u8; 32]),
        Err(ErrorCode::AlreadyFulfilled)
    );
    assert_eq!(r.decision, 1);
    assert_eq!(r.response_hash, [3u8; 32]);
    assert_eq!(r.receipt_root, [4u8; 32]);
}

#[test]
fn judge_fulfillment_checks_relayer_and_decision() {
    let mut r = judge_request();
    assert_eq!(
        fulfill_judge_request(&config(), &key(1), &mut r, 1, [3u8; 32], [4u8; 32]),
        Err(ErrorCode::BadRelayer)
    );
    assert_eq!(
        fulfill_judge_request(&config(), &key(2), &mut r, 0, [3u8; 32], [4u8; 32]),
        Err(ErrorCode::BadDecision)
    );
    assert_eq!(
        fulfill_judge_request(&config(), &key(2), &mut r, 4, [3u8; 32], [4u8; 32]),
        Err(ErrorCode::BadDecision)
    );
    assert_eq!(r.status, REQUEST_PENDING);
    assert_eq!(r.decision, 0);
}

#[test]
fn new_proposal_request_is_pending_and_unset() {
    let r = proposal_request();
    assert_eq!(r.status, REQUEST_PENDING);
    assert_eq!(r.verdict_code, 0);
    assert_eq!(r.model_id, "");
    assert_eq!(r.summary_hash, [0u8; 32]);
    assert_eq!(r.prompt_hash, [0u8; 32]);
    assert_eq!(r.source, "forum");
    assert_eq!(r.proposal_id, "prop-1");
    assert_eq!(r.proposal_text, "fund it");
}

#[test]
fn proposal_request_fields_are_bounded() {
    let r = create_proposal_request(key(5), "s".repeat(17), "p".to_string(), "t".to_string(), 1);
    assert_eq!(r.err(), Some(ErrorCode::SourceTooLong));
    let r = create_proposal_request(key(5), "s".to_string(), "p".repeat(129), "t".to_string(), 1);
    assert_eq!(r.err(), Some(ErrorCode::ProposalIdTooLong));
    let r = create_proposal_request(key(5), "s".to_string(), "p".to_string(), "t".repeat(4097), 1);
    assert_eq!(r.err(), Some(ErrorCode::ProposalTooLong));
    let r = create_proposal_request(key(5), "s".repeat(16), "p".repeat(128), "t".repeat(4096), 1);
    assert!(r.is_ok());
}

#[test]
fn relayer_fulfills_proposal_request_once() {
    let mut r = proposal_request();
    assert_eq!(
        fulfill_proposal_request(&config(), &key(2), &mut r, 3, [1u8; 32], [2u8; 32], [3u8; 32], "model-x".to_string()),
        Ok(())
    );
    assert_eq!(r.status, REQUEST_FULFILLED);
    assert_eq!(r.verdict_code, 3);
    assert_eq!(r.summary_hash, [1u8; 32]);
    assert_eq!(r.receipt_root, [2u8; 32]);
    assert_eq!(r.prompt_hash, [3u8; 32]);
    assert_eq!(r.model_id, "model-x");
    assert_eq!(
        fulfill_proposal_request(&config(), &key(2), &mut r, 1, [9u8; 32], [9u8; 32], [9u8; 32], "other".to_string()),
        Err(ErrorCode::AlreadyFulfilled)
    );
    assert_eq!(r.verdict_code, 3);
    assert_eq!(r.model_id, "model-x");
}

#[test]
fn proposal_fulfillment_checks_each_input() {
    let mut r = proposal_request();
    assert_eq!(
        fulfill_proposal_request(&config(), &key(3), &mut r, 1, [1u8; 32], [2u8; 32], [3u8; 32], "m".to_string()),
        Err(ErrorCode::BadRelayer)
    );
    assert_eq!(
        fulfill_proposal_request(&config(), &key(2), &mut r, 0, [1u8; 32], [2u8; 32], [3u8; 32], "m".to_string()),
        Err(ErrorCode::BadVerdict)
    );
    assert_eq!(
        fulfill_proposal_request(&config(), &key(2), &mut r, 1, [1u8; 32], [2u8; 32], [3u8; 32], "m".repeat(65)),
        Err(ErrorCode::ModelIdTooLong)
    );
    assert_eq!(r.status, REQUEST_PENDING);
}

#[test]
fn request_record_sizes() {
    assert_eq!(JudgeRequest::space(), 1662);
    assert_eq!(ProposalRequest::space(), 4466);
}
