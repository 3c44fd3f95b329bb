use vstd::prelude::*;
use crate::key::Pubkey;
use crate::transfer::Transfer;

verus! {

/// The treasury's custody marker: the derivation bump of its vault authority.
#[derive(Clone, Copy, Debug)]
pub struct Treasury {
    pub bump: u8,
}

impl Treasury {
    /// Bytes the ledger reserves for the treasury record.
    pub fn space() -> (r: usize)
        ensures
            r == 8 + 1,
    {
        8 + 1
    }
}

/// Records the treasury's custody marker.
pub fn init_treasury(bump: u8) -> (r: Treasury)
    ensures
        r.bump == bump,
{
    Treasury { bump }
}

/// Creation of the treasury vault, tolerant of retries: a vault that already
/// holds funds under system ownership needs nothing (`None`); otherwise the
/// payer funds a new vault account at `vault` with the minimum-balance
/// reserve.
pub fn init_treasury_vault(
    payer: Pubkey,
    vault: Pubkey,
    vault_system_owned: bool,
    vault_lamports: u64,
    reserve: u64,
) -> (r: Option<Transfer>)
    ensures
        vault_system_owned && vault_lamports > 0 ==> r is None,
        !(vault_system_owned && vault_lamports > 0) ==> r == Some(
            Transfer { from: payer, to: vault, amount: reserve },
        ),
{
    if vault_system_owned && vault_lamports > 0 {
        return None;
    }
    Some(Transfer { from: payer, to: vault, amount: reserve })
}

/// Any funder may pay into the treasury vault.
pub fn fund_treasury(funder: Pubkey, vault: Pubkey, amount: u64) -> (r: Transfer)
    ensures
        r == (Transfer { from: funder, to: vault, amount }),
{
    Transfer { from: funder, to: vault, amount }
}

} // verus!
