use crate::pubkey::Pubkey;
use vstd::prelude::*;

verus! {

/// Seed of the address at which the one configuration record is kept.
pub const CONFIG_SEED: &'static str = "config";

/// The marketplace's configuration: who administers it and the royalty rate.
///
/// There is one such record. It starts out with `is_initialized` unset and is
/// set up once; after that only its administrator changes the rate.
#[derive(Clone, Copy, Debug, PartialEq, Eq)]
pub struct ConfigAccount {
    /// Bump of the record's address.
    pub bump: u8,
    /// Whether the record has been set up.
    pub is_initialized: bool,
    /// The administrator.
    pub admin: Pubkey,
    /// The royalty rate in basis points: parts out of 10000.
    pub royalty_fee_basis_points: u16,
}

} // verus!
