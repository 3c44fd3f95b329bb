use vstd::prelude::*;
use crate::error::ErrorCode;
use crate::key::{Pubkey, zero_bytes, zero_hash};
use crate::limits::{MAX_CRITERIA_LEN, MAX_INPUT_LEN, MAX_MATCH_EXTRA_LEN, MAX_MODEL_ID_LEN};
use crate::relay::{Config, authorize_relayer};
use crate::text::{byte_len, fits};
use crate::transfer::{Transfer, all_from, paid_to, total_amount};

verus! {

pub const MATCH_OPEN: u8 = 0;
pub const MATCH_FINALIZED: u8 = 1;
pub const MATCH_SETTLED: u8 = 2;

/// Match outcome in which player A takes the pot.
pub const PLAYER_A_WINS: u8 = 1;
/// Match outcome in which player B takes the pot.
pub const PLAYER_B_WINS: u8 = 2;
/// Match outcome in which each player gets the stake back.
pub const DRAW: u8 = 3;

/// A two-party wagered match whose stakes sit in a per-match escrow.
#[derive(Clone, Debug)]
pub struct Match {
    pub player_a: Pubkey,
    pub player_b: Pubkey,
    pub status: u8,
    pub nonce: u64,
    pub match_type: u8,
    pub stake_lamports: u64,
    pub verdict: u8,
    pub prompt_hash: [u8; 32],
    pub receipt_root: [u8; 32],
    pub model_id: String,
    pub criteria: String,
    pub input_a: String,
    pub input_b: String,
    pub extra: String,
    pub executor: Pubkey,
}

impl Match {
    /// The match's invariant: two distinct players, a positive stake, and a
    /// verdict in range once the relayer has given one.
    pub open spec fn wf(&self) -> bool {
        &&& self.player_a@ != self.player_b@
        &&& self.stake_lamports > 0
        &&& 1 <= self.match_type <= 3
        &&& (self.status == MATCH_OPEN && self.verdict == 0) || ((self.status == MATCH_FINALIZED
            || self.status == MATCH_SETTLED) && 1 <= self.verdict <= 3)
    }

    /// Bytes the ledger reserves for one match record.
    pub fn space() -> (r: usize)
        ensures
            r == 8 + 32 + 32 + 1 + 8 + 1 + 8 + 1 + 32 + 32 + 4 + MAX_MODEL_ID_LEN + 4
                + MAX_CRITERIA_LEN + 4 + MAX_INPUT_LEN + 4 + MAX_INPUT_LEN + 4
                + MAX_MATCH_EXTRA_LEN + 32,
    {
        8 + 32 + 32 + 1 + 8 + 1 + 8 + 1 + 32 + 32 + 4 + MAX_MODEL_ID_LEN + 4 + MAX_CRITERIA_LEN + 4
            + MAX_INPUT_LEN + 4 + MAX_INPUT_LEN + 4 + MAX_MATCH_EXTRA_LEN + 32
    }
}

/// The first check that refuses a new match, if any.
pub open spec fn create_match_error(
    player_a: Pubkey,
    player_b: Pubkey,
    match_type: u8,
    criteria: &String,
    input_a: &String,
    input_b: &String,
    extra: &String,
    stake_lamports: u64,
) -> Option<ErrorCode> {
    if !(1 <= match_type <= 3) {
        Some(ErrorCode::BadMatchType)
    } else if byte_len(criteria) > MAX_CRITERIA_LEN || byte_len(input_a) > MAX_INPUT_LEN
        || byte_len(input_b) > MAX_INPUT_LEN || byte_len(extra) > MAX_MATCH_EXTRA_LEN {
        Some(ErrorCode::MatchTextTooLong)
    } else if stake_lamports == 0 {
        Some(ErrorCode::BadStake)
    } else if player_a@ == player_b@ {
        Some(ErrorCode::BadMatchPlayer)
    } else {
        None
    }
}

/// The inbound transfers that open the escrow: player A pays the minimum
/// balance reserve of the new escrow account, then each player pays the stake.
pub open spec fn escrow_funding(
    escrow: Pubkey,
    player_a: Pubkey,
    player_b: Pubkey,
    stake_lamports: u64,
    reserve: u64,
) -> Seq<Transfer> {
    seq![
        Transfer { from: player_a, to: escrow, amount: reserve },
        Transfer { from: player_a, to: escrow, amount: stake_lamports },
        Transfer { from: player_b, to: escrow, amount: stake_lamports },
    ]
}

/// `m` is a freshly opened match with the given parameters.
pub open spec fn is_opened_match(
    m: Match,
    player_a: Pubkey,
    player_b: Pubkey,
    match_type: u8,
    criteria: String,
    input_a: String,
    input_b: String,
    extra: String,
    stake_lamports: u64,
    nonce: u64,
) -> bool {
    &&& m.player_a == player_a
    &&& m.player_b == player_b
    &&& m.status == MATCH_OPEN
    &&& m.nonce == nonce
    &&& m.match_type == match_type
    &&& m.stake_lamports == stake_lamports
    &&& m.verdict == 0
    &&& m.prompt_hash@ == zero_bytes()
    &&& m.receipt_root@ == zero_bytes()
    &&& m.model_id@ == Seq::<char>::empty()
    &&& m.criteria == criteria
    &&& m.input_a == input_a
    &&& m.input_b == input_b
    &&& m.extra == extra
    &&& m.executor@ == zero_bytes()
}

/// Opens a match between two distinct players. On success returns the new
/// record and the transfers that fund its escrow at `escrow`.
pub fn create_match(
    escrow: Pubkey,
    player_a: Pubkey,
    player_b: Pubkey,
    match_type: u8,
    criteria: String,
    input_a: String,
    input_b: String,
    extra: String,
    stake_lamports: u64,
    nonce: u64,
    reserve: u64,
) -> (r: Result<(Match, Vec<Transfer>), ErrorCode>)
    ensures
        match r {
            Ok((m, funding)) => {
                &&& create_match_error(
                    player_a,
                    player_b,
                    match_type,
                    &criteria,
                    &input_a,
                    &input_b,
                    &extra,
                    stake_lamports,
                ) is None
                &&& m.wf()
                &&& is_opened_match(
                    m,
                    player_a,
                    player_b,
                    match_type,
                    criteria,
                    input_a,
                    input_b,
                    extra,
                    stake_lamports,
                    nonce,
                )
                &&& funding@ == escrow_funding(escrow, player_a, player_b, stake_lamports, reserve)
            },
            Err(e) => create_match_error(
                player_a,
                player_b,
                match_type,
                &criteria,
                &input_a,
                &input_b,
                &extra,
                stake_lamports,
            ) == Some(e),
        },
{
    if !(match_type >= 1 && match_type <= 3) {
        return Err(ErrorCode::BadMatchType);
    }
    if !fits(&criteria, MAX_CRITERIA_LEN) {
        return Err(ErrorCode::MatchTextTooLong);
    }
    if !fits(&input_a, MAX_INPUT_LEN) {
        return Err(ErrorCode::MatchTextTooLong);
    }
    if !fits(&input_b, MAX_INPUT_LEN) {
        return Err(ErrorCode::MatchTextTooLong);
    }
    if !fits(&extra, MAX_MATCH_EXTRA_LEN) {
        return Err(ErrorCode::MatchTextTooLong);
    }
    if stake_lamports == 0 {
        return Err(ErrorCode::BadStake);
    }
    if player_a.same_as(&player_b) {
        return Err(ErrorCode::BadMatchPlayer);
    }
    let mut funding: Vec<Transfer> = Vec::new();
    funding.push(Transfer { from: player_a, to: escrow, amount: reserve });
    funding.push(Transfer { from: player_a, to: escrow, amount: stake_lamports });
    funding.push(Transfer { from: player_b, to: escrow, amount: stake_lamports });
    let m = Match {
        player_a,
        player_b,
        status: MATCH_OPEN,
        nonce,
        match_type,
        stake_lamports,
        verdict: 0,
        prompt_hash: zero_hash(),
        receipt_root: zero_hash(),
        model_id: String::new(),
        criteria,
        input_a,
        input_b,
        extra,
        executor: Pubkey::default_key(),
    };
    assert(funding@ =~= escrow_funding(escrow, player_a, player_b, stake_lamports, reserve));
    Ok((m, funding))
}

/// The first check that refuses to record a match verdict, if any.
pub open spec fn finalize_match_error(
    config: Config,
    relayer: Pubkey,
    m: Match,
    verdict: u8,
    model_id: &String,
) -> Option<ErrorCode> {
    if config.relayer@ != relayer@ {
        Some(ErrorCode::BadRelayer)
    } else if m.status != MATCH_OPEN {
        Some(ErrorCode::MatchAlreadyFinalized)
    } else if !(1 <= verdict <= 3) {
        Some(ErrorCode::BadMatchVerdict)
    } else if byte_len(model_id) > MAX_MODEL_ID_LEN {
        Some(ErrorCode::ModelIdTooLong)
    } else {
        None
    }
}

/// The relayer records the verdict of an open match.
pub fn finalize_match(
    config: &Config,
    relayer: &Pubkey,
    m: &mut Match,
    verdict: u8,
    receipt_root: [u8; 32],
    prompt_hash: [u8; 32],
    model_id: String,
) -> (r: Result<(), ErrorCode>)
    ensures
        old(m).wf() ==> final(m).wf(),
        match finalize_match_error(*config, *relayer, *old(m), verdict, &model_id) {
            Some(e) => r == Err::<(), ErrorCode>(e) && *final(m) == *old(m),
            None => r is Ok && *final(m) == (Match {
                verdict,
                receipt_root,
                prompt_hash,
                model_id,
                status: MATCH_FINALIZED,
                ..*old(m)
            }),
        },
{
    authorize_relayer(config, relayer)?;
    if m.status != MATCH_OPEN {
        return Err(ErrorCode::MatchAlreadyFinalized);
    }
    if !(verdict >= 1 && verdict <= 3) {
        return Err(ErrorCode::BadMatchVerdict);
    }
    if !fits(&model_id, MAX_MODEL_ID_LEN) {
        return Err(ErrorCode::ModelIdTooLong);
    }
    m.verdict = verdict;
    m.receipt_root = receipt_root;
    m.prompt_hash = prompt_hash;
    m.model_id = model_id;
    m.status = MATCH_FINALIZED;
    Ok(())
}

/// The first check that refuses to settle a match, if any. The escrow must
/// still hold its reserve plus both stakes.
pub open spec fn execute_match_error(
    m: Match,
    player_a: Pubkey,
    player_b: Pubkey,
    escrow_balance: u64,
    reserve: u64,
) -> Option<ErrorCode> {
    if m.status != MATCH_FINALIZED {
        Some(ErrorCode::MatchNotFinalized)
    } else if m.player_a@ != player_a@ || m.player_b@ != player_b@ {
        Some(ErrorCode::BadMatchPlayer)
    } else if (escrow_balance as int) < reserve + 2 * m.stake_lamports {
        Some(ErrorCode::EscrowBalanceLow)
    } else {
        None
    }
}

/// The payout out of the escrow for a given outcome, the whole pot to the winner
/// or the stake back to each player on a draw.
pub open spec fn settlement(
    escrow: Pubkey,
    player_a: Pubkey,
    player_b: Pubkey,
    verdict: u8,
    stake_lamports: u64,
) -> Seq<Transfer> {
    if verdict == PLAYER_A_WINS {
        seq![Transfer { from: escrow, to: player_a, amount: (2 * stake_lamports) as u64 }]
    } else if verdict == PLAYER_B_WINS {
        seq![Transfer { from: escrow, to: player_b, amount: (2 * stake_lamports) as u64 }]
    } else {
        seq![
            Transfer { from: escrow, to: player_a, amount: stake_lamports },
            Transfer { from: escrow, to: player_b, amount: stake_lamports },
        ]
    }
}

/// Settles a finalized match: returns the payout transfers out of `escrow`
/// and marks the match settled by `executor`.
pub fn execute_match(
    m: &mut Match,
    escrow: Pubkey,
    player_a: Pubkey,
    player_b: Pubkey,
    executor: Pubkey,
    escrow_balance: u64,
    reserve: u64,
) -> (r: Result<Vec<Transfer>, ErrorCode>)
    ensures
        old(m).wf() ==> final(m).wf(),
        match execute_match_error(*old(m), player_a, player_b, escrow_balance, reserve) {
            Some(e) => r == Err::<Vec<Transfer>, ErrorCode>(e) && *final(m) == *old(m),
            None => {
                &&& r is Ok
                &&& r->Ok_0@ == settlement(
                    escrow,
                    player_a,
                    player_b,
                    old(m).verdict,
                    old(m).stake_lamports,
                )
                &&& *final(m) == (Match { status: MATCH_SETTLED, executor, ..*old(m) })
            },
        },
{
    if m.status != MATCH_FINALIZED {
        return Err(ErrorCode::MatchNotFinalized);
    }
    if !m.player_a.same_as(&player_a) || !m.player_b.same_as(&player_b) {
        return Err(ErrorCode::BadMatchPlayer);
    }
    if (escrow_balance as u128) < (reserve as u128) + 2 * (m.stake_lamports as u128) {
        return Err(ErrorCode::EscrowBalanceLow);
    }
    let total: u64 = m.stake_lamports * 2;
    let mut payout: Vec<Transfer> = Vec::new();
    if m.verdict == PLAYER_A_WINS {
        payout.push(Transfer { from: escrow, to: player_a, amount: total });
    } else if m.verdict == PLAYER_B_WINS {
        payout.push(Transfer { from: escrow, to: player_b, amount: total });
    } else {
        payout.push(Transfer { from: escrow, to: player_a, amount: m.stake_lamports });
        payout.push(Transfer { from: escrow, to: player_b, amount: m.stake_lamports });
    }
    assert(payout@ =~= settlement(escrow, player_a, player_b, m.verdict, m.stake_lamports));
    m.status = MATCH_SETTLED;
    m.executor = executor;
    Ok(payout)
}

/// Fund conservation of a settlement: whatever the verdict, exactly twice the
/// stake leaves the escrow, all of it to the winner, or half to each player on
/// a draw.
pub proof fn settlement_pays_out_twice_the_stake(
    escrow: Pubkey,
    player_a: Pubkey,
    player_b: Pubkey,
    verdict: u8,
    stake_lamports: u64,
)
    requires
        player_a@ != player_b@,
        2 * stake_lamports <= u64::MAX,
    ensures
        ({
            let s = settlement(escrow, player_a, player_b, verdict, stake_lamports);
            &&& total_amount(s) == 2 * stake_lamports
            &&& all_from(s, escrow)
            &&& paid_to(s, player_a) == if verdict == PLAYER_A_WINS {
                2 * stake_lamports
            } else if verdict == PLAYER_B_WINS {
                0
            } else {
                stake_lamports as int
            }
            &&& paid_to(s, player_b) == if verdict == PLAYER_A_WINS {
                0
            } else if verdict == PLAYER_B_WINS {
                2 * stake_lamports
            } else {
                stake_lamports as int
            }
        }),
{
    let s = settlement(escrow, player_a, player_b, verdict, stake_lamports);
    let e = Seq::<Transfer>::empty();
    assert(total_amount(e) == 0);
    assert(paid_to(e, player_a) == 0);
    assert(paid_to(e, player_b) == 0);
    if verdict == PLAYER_A_WINS || verdict == PLAYER_B_WINS {
        assert(s.drop_last() =~= e);
    } else {
        let first = s.drop_last();
        assert(first.drop_last() =~= e);
        assert(total_amount(first) == stake_lamports);
        assert(paid_to(first, player_a) == stake_lamports);
        assert(paid_to(first, player_b) == 0);
    }
}

} // verus!
