use vstd::prelude::*;

verus! {

/// Byte ceiling of a judging criteria text.
pub const MAX_CRITERIA_LEN: usize = 512;
/// Byte ceiling of each of the two judged inputs.
pub const MAX_INPUT_LEN: usize = 512;
/// Byte ceiling of the text of a relayed proposal request.
pub const MAX_PROPOSAL_TEXT_LEN: usize = 4096;
/// Byte ceiling of the model identifier reported by the relayer.
pub const MAX_MODEL_ID_LEN: usize = 64;
/// Byte ceiling of the source tag of a proposal request.
pub const MAX_SOURCE_LEN: usize = 16;
/// Byte ceiling of the external proposal identifier.
pub const MAX_PROPOSAL_ID_LEN: usize = 128;
/// Byte ceiling of a governance proposal's text.
pub const MAX_GOV_PROPOSAL_TEXT_LEN: usize = 512;
/// Byte ceiling of a governance revision's text.
pub const MAX_REVISION_TEXT_LEN: usize = 512;
/// Amount disbursed by the treasury for one approved action.
pub const ACTION_LAMPORTS: u64 = 1_000_000;
/// Byte ceiling of a match's free-form extra payload.
pub const MAX_MATCH_EXTRA_LEN: usize = 512;

} // verus!
