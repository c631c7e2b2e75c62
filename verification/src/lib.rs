//! Settlement rules of a two-sided marketplace for services.
//!
//! A service is listed once and stands as one asset. It changes hands by a
//! direct purchase at its price, or when its vendor accepts an ask: an offer
//! whose price the asker has paid into escrow. Of every sale after the first
//! the vendor who listed the service gets a royalty.
//!
//! Each instruction in [`instructions`] takes the records it works on as plain
//! values, checks the caller against them, and hands back the transfers to
//! carry out and the event to announce. It moves no lamports itself: the host
//! carries out what was ordered, all of it or none. A refused instruction
//! changes no record and orders nothing.
//!
//! - [`pubkey`]: addresses, compared byte by byte.
//! - [`error`]: why an instruction is refused.
//! - [`fee`]: the royalty on a price.
//! - [`guard`]: the check of a caller against a record.
//! - [`helper`]: transfers, what they pay to whom, and the cut of a sale.
//! - [`states`]: the configuration, service and ask records.
//! - [`instructions`]: the instructions themselves.

pub mod constant;
pub mod error;
pub mod fee;
pub mod guard;
pub mod helper;
pub mod instructions;
pub mod pubkey;
pub mod states;

pub use crate::constant::MAX_FEE_BASIS_POINTS;
pub use crate::constant::{
    ASSET_DECIMALS, ASSET_SUPPLY, METADATA_AGREEMENT_SPACE, METADATA_BASE_SPACE, MINT_ACCOUNT_LEN,
};
pub use crate::error::ProgramErrorCode;
pub use crate::fee::{calculate_royalty, split_amount, RoyaltySplit};
pub use crate::guard::require_keys_eq;
pub use crate::helper::{
    send_lamports, settle_sale, transfer_nft_from_pool_to_user, NftTransfer, Party, Settlement,
    Transfer,
};
pub use crate::pubkey::Pubkey;
