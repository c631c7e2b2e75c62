use crate::pubkey::Pubkey;
use vstd::prelude::*;

verus! {

/// Seed of the address at which a service record is kept, beside its asset.
pub const SERVICE_SEED: &'static str = "service";

/// One term of the agreement under which a service is listed.
#[derive(Clone, Debug, PartialEq, Eq)]
pub struct ServiceAgreement {
    pub title: String,
    pub details: String,
}

/// A listed service: one record for each asset, kept for good as its provenance.
///
/// `current_vendor` is who gets the proceeds of a sale and who may reprice,
/// withdraw or accept an ask. `original_vendor` listed the service and gets the
/// royalty of every later sale. Only `current_vendor` and `price` ever change.
#[derive(Clone, Debug, PartialEq, Eq)]
pub struct ServiceAccount {
    /// Bump of the record's address.
    pub bump: u8,
    /// Whether the asset is bound to custody for good.
    pub is_soulbound: bool,
    /// Who listed the service.
    pub original_vendor: Pubkey,
    /// Who owns the service now.
    pub current_vendor: Pubkey,
    /// The asset that stands for the service.
    pub nft_mint: Pubkey,
    /// The price of a direct purchase, in lamports.
    pub price: u64,
    /// The terms under which the service was listed.
    pub agreements: Vec<ServiceAgreement>,
}

} // verus!
