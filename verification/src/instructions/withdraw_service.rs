use crate::error::ProgramErrorCode;
use crate::guard::require_keys_eq;
use crate::helper::{transfer_nft_from_pool_to_user, NftTransfer};
use crate::pubkey::Pubkey;
use crate::states::service::ServiceAccount;
use vstd::prelude::*;

verus! {

/// What the withdrawal of a service's asset works on.
#[derive(Clone, Debug, PartialEq, Eq)]
pub struct WithdrawNFTService {
    /// Who asks for the asset.
    pub vendor: Pubkey,
    /// The asset handed in.
    pub nft_mint: Pubkey,
    pub service_account: ServiceAccount,
}

/// Why a withdrawal is refused, if it is: the first of these that holds. The
/// asset is soulbound; the caller is not the current vendor of the service;
/// the asset handed in is not that of the service.
pub open spec fn withdraw_service_error(ctx: WithdrawNFTService) -> Option<ProgramErrorCode> {
    if ctx.service_account.is_soulbound {
        Some(ProgramErrorCode::NotSupportSoulBound)
    } else if ctx.service_account.current_vendor != ctx.vendor {
        Some(ProgramErrorCode::Unauthorized)
    } else if ctx.service_account.nft_mint != ctx.nft_mint {
        Some(ProgramErrorCode::InvalidNftMint)
    } else {
        None
    }
}

/// Hands the asset of the service out of custody to its current vendor, who
/// asks for it.
///
/// A soulbound asset never leaves custody, whoever asks: the call is refused
/// with `NotSupportSoulBound`. The record is not changed.
pub fn withdraw_service(ctx: &WithdrawNFTService) -> (r: Result<NftTransfer, ProgramErrorCode>)
    ensures
        ctx.service_account.is_soulbound ==> r == Err::<NftTransfer, ProgramErrorCode>(
            ProgramErrorCode::NotSupportSoulBound,
        ),
        match r {
            Ok(order) => {
                &&& withdraw_service_error(*ctx) is None
                &&& order == (NftTransfer { nft_mint: ctx.nft_mint, to: ctx.vendor, amount: 1 })
            },
            Err(e) => withdraw_service_error(*ctx) == Some(e),
        },
{
    if ctx.service_account.is_soulbound {
        return Err(ProgramErrorCode::NotSupportSoulBound);
    }
    require_keys_eq(
        ctx.vendor,
        ctx.service_account.current_vendor,
        ProgramErrorCode::Unauthorized,
    )?;
    require_keys_eq(ctx.nft_mint, ctx.service_account.nft_mint, ProgramErrorCode::InvalidNftMint)?;
    Ok(transfer_nft_from_pool_to_user(ctx.nft_mint, ctx.vendor))
}

/// A soulbound asset is refused to everyone, for being soulbound; any other
/// asset is refused to all but the current vendor of its service.
pub proof fn lemma_withdraw_service_guards(ctx: WithdrawNFTService)
    ensures
        ctx.service_account.is_soulbound ==> withdraw_service_error(ctx) == Some(
            ProgramErrorCode::NotSupportSoulBound,
        ),
        !ctx.service_account.is_soulbound && ctx.vendor != ctx.service_account.current_vendor
            ==> withdraw_service_error(ctx) == Some(ProgramErrorCode::Unauthorized),
{
}

} // verus!
