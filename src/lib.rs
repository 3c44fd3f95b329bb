//! Settlement and consensus engine for a relay-oracle request protocol.
//!
//! Every operation is a function over plain records: it checks authority,
//! lifecycle state and input bounds, and either returns the updated records
//! (and any fund movements the ledger must carry out) or an error that leaves
//! every record untouched.

pub mod key;
pub mod limits;
pub mod error;
pub mod text;
pub mod transfer;
pub mod relay;
pub mod registry;
pub mod request;
pub mod treasury;
pub mod governance;
pub mod escrow;
