use crate::error::ProgramErrorCode;
use crate::guard::require_keys_eq;
use crate::helper::{
    lemma_sale_conserves_funds, paid, sale_split, sale_transfers, settle_sale, Party, Settlement,
    Transfer,
};
use crate::pubkey::Pubkey;
use crate::states::config::ConfigAccount;
use crate::states::service::ServiceAccount;
use vstd::prelude::*;

verus! {

/// What a direct purchase works on.
#[derive(Clone, Debug, PartialEq, Eq)]
pub struct BuyService {
    /// Who buys, and pays.
    pub buyer: Pubkey,
    /// The account handed in as that of the current vendor.
    pub current_vendor: Pubkey,
    /// The account handed in as that of the original vendor.
    pub original_vendor: Pubkey,
    pub config_account: ConfigAccount,
    pub service_account: ServiceAccount,
}

/// Announces a direct purchase.
#[derive(Clone, Copy, Debug, PartialEq, Eq)]
pub struct BuyServiceEvent {
    pub buyer: Pubkey,
    /// The vendor who sold.
    pub current_vendor: Pubkey,
    pub original_vendor: Pubkey,
    pub price: u64,
    pub royalty_amount: u64,
    pub remaining_amount: u64,
}

/// Why a purchase is refused, if it is: the first of these that holds. The
/// accounts handed in are not the vendors of the record; the royalty at the
/// configured rate would be more than the price.
pub open spec fn buy_service_error(ctx: BuyService) -> Option<ProgramErrorCode> {
    if ctx.service_account.original_vendor != ctx.original_vendor {
        Some(ProgramErrorCode::InvalidOriginalVendor)
    } else if ctx.service_account.current_vendor != ctx.current_vendor {
        Some(ProgramErrorCode::InvalidCurrentVendor)
    } else if sale_split(
        ctx.service_account.price,
        ctx.config_account.royalty_fee_basis_points,
        ctx.current_vendor,
        ctx.original_vendor,
    ) is None {
        Some(ProgramErrorCode::Overflow)
    } else {
        None
    }
}

/// Sells the service to `buyer` at its price.
///
/// The buyer pays the price: all of it to a vendor who is also the original
/// one, else the royalty to the original vendor and the rest to the current
/// one. The two parts are the price, and so is what the buyer pays. The buyer
/// becomes the current vendor. Nothing else in the record changes, and a
/// refused purchase changes nothing.
pub fn buy_service(ctx: &mut BuyService) -> (r: Result<
    Settlement<BuyServiceEvent>,
    ProgramErrorCode,
>)
    ensures
        match r {
            Ok(settlement) => {
                let split = sale_split(
                    old(ctx).service_account.price,
                    old(ctx).config_account.royalty_fee_basis_points,
                    old(ctx).current_vendor,
                    old(ctx).original_vendor,
                ).unwrap();
                &&& buy_service_error(*old(ctx)) is None
                &&& settlement.transfers@ == sale_transfers(
                    Party::Wallet(old(ctx).buyer),
                    old(ctx).current_vendor,
                    old(ctx).original_vendor,
                    split,
                )
                &&& settlement.event == (BuyServiceEvent {
                    buyer: old(ctx).buyer,
                    current_vendor: old(ctx).current_vendor,
                    original_vendor: old(ctx).original_vendor,
                    price: old(ctx).service_account.price,
                    royalty_amount: split.royalty_amount,
                    remaining_amount: split.remaining_amount,
                })
                &&& *final(ctx) == (BuyService {
                    service_account: ServiceAccount {
                        current_vendor: old(ctx).buyer,
                        ..old(ctx).service_account
                    },
                    ..*old(ctx)
                })
                &&& split.royalty_amount + split.remaining_amount == old(ctx).service_account.price
                &&& paid(settlement.transfers@, Party::Wallet(old(ctx).buyer))
                    == old(ctx).service_account.price
            },
            Err(e) => {
                &&& buy_service_error(*old(ctx)) == Some(e)
                &&& *final(ctx) == *old(ctx)
            },
        },
{
    require_keys_eq(
        ctx.original_vendor,
        ctx.service_account.original_vendor,
        ProgramErrorCode::InvalidOriginalVendor,
    )?;
    require_keys_eq(
        ctx.current_vendor,
        ctx.service_account.current_vendor,
        ProgramErrorCode::InvalidCurrentVendor,
    )?;
    let price = ctx.service_account.price;
    let mut transfers: Vec<Transfer> = Vec::new();
    let split = settle_sale(
        &mut transfers,
        Party::Wallet(ctx.buyer),
        ctx.current_vendor,
        ctx.original_vendor,
        price,
        ctx.config_account.royalty_fee_basis_points,
    )?;
    proof {
        lemma_sale_conserves_funds(
            Party::Wallet(ctx.buyer),
            ctx.current_vendor,
            ctx.original_vendor,
            price,
            ctx.config_account.royalty_fee_basis_points,
        );
    }
    ctx.service_account.current_vendor = ctx.buyer;
    let event = BuyServiceEvent {
        buyer: ctx.buyer,
        current_vendor: ctx.current_vendor,
        original_vendor: ctx.original_vendor,
        price,
        royalty_amount: split.royalty_amount,
        remaining_amount: split.remaining_amount,
    };
    Ok(Settlement { transfers, event })
}

/// A purchase goes through only where the accounts handed in are the vendors
/// of the record: other accounts are refused, the original one first.
pub proof fn lemma_buy_service_guards(ctx: BuyService)
    ensures
        ctx.original_vendor != ctx.service_account.original_vendor ==> buy_service_error(ctx)
            == Some(ProgramErrorCode::InvalidOriginalVendor),
        ctx.original_vendor == ctx.service_account.original_vendor && ctx.current_vendor
            != ctx.service_account.current_vendor ==> buy_service_error(ctx) == Some(
            ProgramErrorCode::InvalidCurrentVendor,
        ),
{
}

} // verus!
