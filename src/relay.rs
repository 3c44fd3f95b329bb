use vstd::prelude::*;
use crate::error::ErrorCode;
use crate::key::Pubkey;

verus! {

/// Deployment-wide configuration: who administers it and which identity is
/// the single trusted relayer.
#[derive(Clone, Copy, Debug)]
pub struct Config {
    pub admin: Pubkey,
    pub relayer: Pubkey,
}

/// Stores the configuration in its slot, which may be filled only once.
pub fn init_config(slot: &mut Option<Config>, admin: Pubkey, relayer: Pubkey) -> (r: Result<
    (),
    ErrorCode,
>)
    ensures
        old(slot).is_some() ==> r == Err::<(), ErrorCode>(ErrorCode::AccountAlreadyInUse)
            && *final(slot) == *old(slot),
        old(slot).is_none() ==> r is Ok && *final(slot) == Some(Config { admin, relayer }),
{
    if slot.is_some() {
        return Err(ErrorCode::AccountAlreadyInUse);
    }
    *slot = Some(Config { admin, relayer });
    Ok(())
}

/// The outcome of a relay-authorization check.
pub open spec fn relayer_check(config: Config, signer: Pubkey) -> Result<(), ErrorCode> {
    if config.relayer@ == signer@ {
        Ok(())
    } else {
        Err(ErrorCode::BadRelayer)
    }
}

/// Accepts `signer` only if it is the configured relayer.
pub fn authorize_relayer(config: &Config, signer: &Pubkey) -> (r: Result<(), ErrorCode>)
    ensures
        r == relayer_check(*config, *signer),
{
    if config.relayer.same_as(signer) {
        Ok(())
    } else {
        Err(ErrorCode::BadRelayer)
    }
}

} // verus!
