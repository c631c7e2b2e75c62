use crate::error::ProgramErrorCode;
use crate::guard::require_keys_eq;
use crate::pubkey::Pubkey;
use crate::states::service::ServiceAccount;
use vstd::prelude::*;

verus! {

/// What the repricing of a service works on.
#[derive(Clone, Debug, PartialEq, Eq)]
pub struct UpdateServicePrice {
    /// Who asks for the change.
    pub vendor: Pubkey,
    pub service_account: ServiceAccount,
}

/// Announces the repricing of a service.
#[derive(Clone, Copy, Debug, PartialEq, Eq)]
pub struct UpdateServicePriceEvent {
    pub vendor: Pubkey,
    pub nft_mint: Pubkey,
    pub old_price: u64,
    pub new_price: u64,
}

/// Sets the price of the service, on the word of its current vendor. No
/// lamports move.
///
/// Anyone but the current vendor is refused with `Unauthorized`, and the
/// record is left as it is.
pub fn update_service_price(ctx: &mut UpdateServicePrice, new_price: u64) -> (r: Result<
    UpdateServicePriceEvent,
    ProgramErrorCode,
>)
    ensures
        match r {
            Ok(event) => {
                &&& old(ctx).vendor == old(ctx).service_account.current_vendor
                &&& event == (UpdateServicePriceEvent {
                    vendor: old(ctx).vendor,
                    nft_mint: old(ctx).service_account.nft_mint,
                    old_price: old(ctx).service_account.price,
                    new_price,
                })
                &&& *final(ctx) == (UpdateServicePrice {
                    service_account: ServiceAccount {
                        price: new_price,
                        ..old(ctx).service_account
                    },
                    ..*old(ctx)
                })
            },
            Err(e) => {
                &&& old(ctx).vendor != old(ctx).service_account.current_vendor
                &&& e == ProgramErrorCode::Unauthorized
                &&& *final(ctx) == *old(ctx)
            },
        },
{
    require_keys_eq(
        ctx.vendor,
        ctx.service_account.current_vendor,
        ProgramErrorCode::Unauthorized,
    )?;
    let old_price = ctx.service_account.price;
    ctx.service_account.price = new_price;
    Ok(
        UpdateServicePriceEvent {
            vendor: ctx.vendor,
            nft_mint: ctx.service_account.nft_mint,
            old_price,
            new_price,
        },
    )
}

} // verus!
