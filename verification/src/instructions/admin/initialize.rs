use crate::error::ProgramErrorCode;
use crate::pubkey::Pubkey;
use crate::states::config::ConfigAccount;
use vstd::prelude::*;

verus! {

/// What the setting up of the configuration works on.
#[derive(Clone, Copy, Debug, PartialEq, Eq)]
pub struct Initialize {
    /// Who sets the configuration up, and administers it from then on.
    pub admin: Pubkey,
    /// Bump of the address of the configuration record.
    pub bump: u8,
    pub config_account: ConfigAccount,
}

/// Announces that the configuration was set up.
#[derive(Clone, Copy, Debug, PartialEq, Eq)]
pub struct InitializeEvent {
    pub admin: Pubkey,
    pub royalty_fee_basis_points: u16,
}

/// Sets the configuration up, once: the caller becomes its administrator and
/// `royalty_fee_basis_points` its rate.
///
/// A configuration that was set up before is left as it is, and the call is
/// refused with `AlreadyInitialized`.
pub fn initialize(ctx: &mut Initialize, royalty_fee_basis_points: u16) -> (r: Result<
    InitializeEvent,
    ProgramErrorCode,
>)
    ensures
        match r {
            Ok(event) => {
                &&& !old(ctx).config_account.is_initialized
                &&& event == (InitializeEvent { admin: old(ctx).admin, royalty_fee_basis_points })
                &&& *final(ctx) == (Initialize {
                    config_account: ConfigAccount {
                        bump: old(ctx).bump,
                        is_initialized: true,
                        admin: old(ctx).admin,
                        royalty_fee_basis_points,
                    },
                    ..*old(ctx)
                })
            },
            Err(e) => {
                &&& old(ctx).config_account.is_initialized
                &&& e == ProgramErrorCode::AlreadyInitialized
                &&& *final(ctx) == *old(ctx)
            },
        },
{
    if ctx.config_account.is_initialized {
        return Err(ProgramErrorCode::AlreadyInitialized);
    }
    ctx.config_account.bump = ctx.bump;
    ctx.config_account.is_initialized = true;
    ctx.config_account.admin = ctx.admin;
    ctx.config_account.royalty_fee_basis_points = royalty_fee_basis_points;
    Ok(InitializeEvent { admin: ctx.admin, royalty_fee_basis_points })
}

} // verus!
