use ambient_svm_hello::error::ErrorCode;
use ambient_svm_hello::escrow::{
    create_match, execute_match, finalize_match, Match, DRAW, MATCH_FINALIZED, MATCH_OPEN,
    MATCH_SETTLED, PLAYER_A_WINS, PLAYER_B_WINS,
};
use ambient_svm_hello::key::Pubkey;
use ambient_svm_hello::relay::Config;
use ambient_svm_hello::transfer::Transfer;
use ambient_svm_hello::treasury::{fund_treasury, init_treasury, init_treasury_vault, Treasury};

fn key(n: u8) -> Pubkey {
    Pubkey::new([n; 32])
}

const A: u8 = 20;
const B: u8 = 21;
const ESCROW: u8 = 22;
const EXECUTOR: u8 = 23;
const RESERVE: u64 = 890_880;

fn config() -> Config {
    Config { admin: key(1), relayer: key(2) }
}

fn open_match(stake: u64) -> Match {
    create_match(
        key(ESCROW), key(A), key(B), 1, "c".to_string(), "a".to_string(), "b".to_string(),
        "e".to_string(), stake, 4, RESERVE,
    )
    .unwrap()
    .0
}

fn finalized(stake: u64, verdict: u8) -> Match {
    let mut m = open_match(stake);
    finalize_match(&config(), &key(2), &mut m, verdict, [5u8; 32], [6u8; 32], "model".to_string()).unwrap();
    m
}

fn amounts(ts: &[Transfer]) -> Vec<(Pubkey, Pubkey, u64)> {
    ts.iter().map(|t| (t.from, t.to, t.amount)).collect()
}

#[test]
fn match_opens_with_both_stakes_in_escrow() {
    let (m, funding) = create_match(
        key(ESCROW), key(A), key(B), 2, "c".to_string(), "a".to_string(), "b".to_string(),
        "e".to_string(), 500, 4, RESERVE,
    )
    .unwrap();
    assert_eq!(m.player_a, key(A));
    assert_eq!(m.player_b, key(B));
    assert_eq!(m.status, MATCH_OPEN);
    assert_eq!(m.match_type, 2);
    assert_eq!(m.stake_lamports, 500);
    assert_eq!(m.verdict, 0);
    assert_eq!(m.model_id, "");
    assert_eq!(m.extra, "e");
    assert_eq!(m.executor, Pubkey::default_key());
    assert_eq!(
        amounts(&funding),
        vec![(key(A), key(ESCROW), RESERVE), (key(A), key(ESCROW), 500), (key(B), key(ESCROW), 500)]
    );
}

#[test]
fn same_player_twice_is_refused() {
    let r = create_match(
        key(ESCROW), key(A), key(A), 1, "c".to_string(), "a".to_string(), "b".to_string(),
        "e".to_string(), 500, 4, RESERVE,
    );
    assert_eq!(r.err(), Some(ErrorCode::BadMatchPlayer));
}

#[test]
fn match_creation_checks_type_text_and_stake() {
    let mk = |t: u8, extra: String, stake: u64| {
        create_match(
            key(ESCROW), key(A), key(B), t, "c".to_string(), "a".to_string(), "b".to_string(),
            extra, stake, 4, RESERVE,
        )
        .err()
    };
    assert_eq!(mk(0, "e".to_string(), 5), Some(ErrorCode::BadMatchType));
    assert_eq!(mk(4, "e".to_string(), 5), Some(ErrorCode::BadMatchType));
    assert_eq!(mk(3, "e".repeat(513), 5), Some(ErrorCode::MatchTextTooLong));
    assert_eq!(mk(3, "e".to_string(), 0), Some(ErrorCode::BadStake));
    assert_eq!(mk(3, "e".repeat(512), 5), None);
    let r = create_match(
        key(ESCROW), key(A), key(B), 1, "c".repeat(513), "a".to_string(), "b".to_string(),
        "e".to_string(), 5, 4, RESERVE,
    );
    assert_eq!(r.err(), Some(ErrorCode::MatchTextTooLong));
}

#[test]
fn relayer_records_match_verdict() {
    let m = finalized(500, DRAW);
    assert_eq!(m.status, MATCH_FINALIZED);
    assert_eq!(m.verdict, DRAW);
    assert_eq!(m.receipt_root, [5u8; 32]);
    assert_eq!(m.prompt_hash, [6u8; 32]);
    assert_eq!(m.model_id, "model");
}

#[test]
fn match_verdict_checks() {
    let mut m = open_match(500);
    let cfg = config();
    assert_eq!(
        finalize_match(&cfg, &key(3), &mut m, 1, [0u8; 32], [0u8; 32], "m".to_string()),
        Err(ErrorCode::BadRelayer)
    );
    assert_eq!(
        finalize_match(&cfg, &key(2), &mut m, 4, [0u8; 32], [0u8; 32], "m".to_string()),
        Err(ErrorCode::BadMatchVerdict)
    );
    assert_eq!(
        finalize_match(&cfg, &key(2), &mut m, 1, [0u8; 32], [0u8; 32], "m".repeat(65)),
        Err(ErrorCode::ModelIdTooLong)
    );
    assert_eq!(m.status, MATCH_OPEN);
    finalize_match(&cfg, &key(2), &mut m, 2, [0u8; 32], [0u8; 32], "m".to_string()).unwrap();
    assert_eq!(
        finalize_match(&cfg, &key(2), &mut m, 1, [0u8; 32], [0u8; 32], "m".to_string()),
        Err(ErrorCode::MatchAlreadyFinalized)
    );
    assert_eq!(m.verdict, 2);
}

fn settle(verdict: u8) -> (Match, Vec<Transfer>) {
    let mut m = finalized(500, verdict);
    let payout = execute_match(&mut m, key(ESCROW), key(A), key(B), key(EXECUTOR), RESERVE + 1000, RESERVE).unwrap();
    (m, payout)
}

#[test]
fn winner_a_takes_the_pot() {
    let (m, payout) = settle(PLAYER_A_WINS);
    assert_eq!(amounts(&payout), vec![(key(ESCROW), key(A), 1000)]);
    assert_eq!(m.status, MATCH_SETTLED);
    assert_eq!(m.executor, key(EXECUTOR));
}

#[test]
fn winner_b_takes_the_pot() {
    let (_, payout) = settle(PLAYER_B_WINS);
    assert_eq!(amounts(&payout), vec![(key(ESCROW), key(B), 1000)]);
}

#[test]
fn draw_returns_each_stake() {
    let (_, payout) = settle(DRAW);
    assert_eq!(amounts(&payout), vec![(key(ESCROW), key(A), 500), (key(ESCROW), key(B), 500)]);
}

#[test]
fn every_settlement_pays_twice_the_stake() {
    for verdict in [PLAYER_A_WINS, PLAYER_B_WINS, DRAW] {
        let (_, payout) = settle(verdict);
        let total: u64 = payout.iter().map(|t| t.amount).sum();
        assert_eq!(total, 1000);
        assert!(payout.iter().all(|t| t.from == key(ESCROW)));
    }
}

#[test]
fn low_escrow_balance_blocks_settlement() {
    let mut m = finalized(500, PLAYER_A_WINS);
    let r = execute_match(&mut m, key(ESCROW), key(A), key(B), key(EXECUTOR), RESERVE + 999, RESERVE);
    assert_eq!(r.err(), Some(ErrorCode::EscrowBalanceLow));
    assert_eq!(m.status, MATCH_FINALIZED);
    assert_eq!(m.executor, Pubkey::default_key());
}

#[test]
fn huge_stake_fails_closed() {
    let mut m = finalized(u64::MAX / 2 + 1, DRAW);
    let r = execute_match(&mut m, key(ESCROW), key(A), key(B), key(EXECUTOR), u64::MAX, 0);
    assert_eq!(r.err(), Some(ErrorCode::EscrowBalanceLow));
}

#[test]
fn settlement_happens_once_and_after_verdict() {
    let mut m = open_match(500);
    let r = execute_match(&mut m, key(ESCROW), key(A), key(B), key(EXECUTOR), RESERVE + 1000, RESERVE);
    assert_eq!(r.err(), Some(ErrorCode::MatchNotFinalized));
    let (mut m, _) = settle(DRAW);
    let r = execute_match(&mut m, key(ESCROW), key(A), key(B), key(EXECUTOR), RESERVE + 1000, RESERVE);
    assert_eq!(r.err(), Some(ErrorCode::MatchNotFinalized));
}

#[test]
fn settlement_checks_players() {
    let mut m = finalized(500, DRAW);
    let r = execute_match(&mut m, key(ESCROW), key(B), key(A), key(EXECUTOR), RESERVE + 1000, RESERVE);
    assert_eq!(r.err(), Some(ErrorCode::BadMatchPlayer));
    let r = execute_match(&mut m, key(ESCROW), key(A), key(99), key(EXECUTOR), RESERVE + 1000, RESERVE);
    assert_eq!(r.err(), Some(ErrorCode::BadMatchPlayer));
    assert_eq!(m.status, MATCH_FINALIZED);
}

#[test]
fn match_record_size() {
    assert_eq!(Match::space(), 2319);
}

#[test]
fn treasury_vault_creation_tolerates_retries() {
    assert!(init_treasury_vault(key(1), key(VAULT_KEY), true, 5, RESERVE).is_none());
    let t = init_treasury_vault(key(1), key(VAULT_KEY), true, 0, RESERVE).unwrap();
    assert_eq!((t.from, t.to, t.amount), (key(1), key(VAULT_KEY), RESERVE));
    let t = init_treasury_vault(key(1), key(VAULT_KEY), false, 5, RESERVE).unwrap();
    assert_eq!(t.amount, RESERVE);
}

const VAULT_KEY: u8 = 30;

#[test]
fn anyone_funds_the_treasury() {
    let t = fund_treasury(key(40), key(VAULT_KEY), 12_345);
    assert_eq!((t.from, t.to, t.amount), (key(40), key(VAULT_KEY), 12_345));
    assert_eq!(init_treasury(254).bump, 254);
    assert_eq!(Treasury::space(), 9);
}
