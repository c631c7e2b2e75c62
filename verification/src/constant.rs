use vstd::prelude::*;

verus! {

/// Denominator of a royalty rate: a rate of this many basis points takes the whole price.
pub const MAX_FEE_BASIS_POINTS: u16 = 10000;

/// Bytes of metadata that every asset gets besides its agreements.
pub const METADATA_BASE_SPACE: usize = 250;

/// Bytes of metadata that each agreement adds.
pub const METADATA_AGREEMENT_SPACE: usize = 200;

/// Bytes of a mint account that has the metadata pointer as its one extension.
pub const MINT_ACCOUNT_LEN: usize = 234;

/// Decimals of the mint of an asset: its one token is not divided.
pub const ASSET_DECIMALS: u8 = 0;

/// Tokens that are ever minted of an asset.
pub const ASSET_SUPPLY: u64 = 1;

} // verus!
