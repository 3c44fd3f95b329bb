use vstd::prelude::*;
use crate::key::Pubkey;

verus! {

/// One movement of value that the ledger's transfer primitive must perform.
#[derive(Clone, Copy, Debug)]
pub struct Transfer {
    pub from: Pubkey,
    pub to: Pubkey,
    pub amount: u64,
}

/// Sum of the amounts of a list of transfers.
pub open spec fn total_amount(ts: Seq<Transfer>) -> int
    decreases ts.len(),
{
    if ts.len() == 0 {
        0
    } else {
        total_amount(ts.drop_last()) + ts.last().amount
    }
}

/// Sum of the amounts of the transfers that credit `who`.
pub open spec fn paid_to(ts: Seq<Transfer>, who: Pubkey) -> int
    decreases ts.len(),
{
    if ts.len() == 0 {
        0
    } else {
        paid_to(ts.drop_last(), who) + if ts.last().to@ == who@ {
            ts.last().amount as int
        } else {
            0
        }
    }
}

/// Whether every transfer of the list is debited from `who`.
pub open spec fn all_from(ts: Seq<Transfer>, who: Pubkey) -> bool {
    forall|i: int| 0 <= i < ts.len() ==> (#[trigger] ts[i]).from@ == who@
}

} // verus!
