use crate::error::ProgramErrorCode;
use crate::guard::require_keys_eq;
use crate::pubkey::Pubkey;
use crate::states::config::ConfigAccount;
use vstd::prelude::*;

verus! {

/// What a change of the royalty rate works on.
#[derive(Clone, Copy, Debug, PartialEq, Eq)]
pub struct UpdateRoyalty {
    /// Who asks for the change.
    pub admin: Pubkey,
    pub config_account: ConfigAccount,
}

/// Replaces the royalty rate, on the word of the administrator.
///
/// The new rate is taken as it is, also above 10000 basis points: at such a
/// rate a sale whose royalty would be more than its price is refused with
/// `Overflow`. Anyone but the administrator is refused with `Unauthorized`,
/// and the configuration is left as it is.
pub fn update_royalty(ctx: &mut UpdateRoyalty, new_royalty_fee_basis_points: u16) -> (r: Result<
    (),
    ProgramErrorCode,
>)
    ensures
        match r {
            Ok(()) => {
                &&& old(ctx).admin == old(ctx).config_account.admin
                &&& *final(ctx) == (UpdateRoyalty {
                    config_account: ConfigAccount {
                        royalty_fee_basis_points: new_royalty_fee_basis_points,
                        ..old(ctx).config_account
                    },
                    ..*old(ctx)
                })
            },
            Err(e) => {
                &&& old(ctx).admin != old(ctx).config_account.admin
                &&& e == ProgramErrorCode::Unauthorized
                &&& *final(ctx) == *old(ctx)
            },
        },
{
    require_keys_eq(ctx.admin, ctx.config_account.admin, ProgramErrorCode::Unauthorized)?;
    ctx.config_account.royalty_fee_basis_points = new_royalty_fee_basis_points;
    Ok(())
}

} // verus!
