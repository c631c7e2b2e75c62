use crate::error::ProgramErrorCode;
use crate::guard::require_keys_eq;
use crate::helper::{
    balance_after, lemma_sale_conserves_funds, sale_split, sale_transfers, settle_sale, Party,
    Settlement, Transfer,
};
use crate::pubkey::Pubkey;
use crate::states::ask::{escrow_held, AskAccount};
use crate::states::config::ConfigAccount;
use crate::states::service::ServiceAccount;
use vstd::prelude::*;

verus! {

/// What the acceptance of an ask works on.
#[derive(Clone, Debug, PartialEq, Eq)]
pub struct AccpectAsk {
    /// Who accepts: the vendor who sells.
    pub vendor: Pubkey,
    /// The account handed in as that of the original vendor.
    pub original_vendor: Pubkey,
    pub config_account: ConfigAccount,
    /// The ask of the asset: `None` where no offer is open.
    pub ask_account: Option<AskAccount>,
    pub service_account: ServiceAccount,
}

/// Announces the acceptance of an ask.
#[derive(Clone, Copy, Debug, PartialEq, Eq)]
pub struct AcceptAskEvent {
    /// The vendor who sold.
    pub vendor: Pubkey,
    /// The asker, who owns the service now.
    pub asker: Pubkey,
    pub original_vendor: Pubkey,
    pub nft_mint: Pubkey,
    pub ask_price: u64,
    pub royalty_amount: u64,
    pub remaining_amount: u64,
}

/// Why the acceptance of an ask is refused, if it is: the first of these that
/// holds. The caller is not the current vendor of the service; the account
/// handed in is not its original vendor; no offer is open for its asset; the
/// royalty at the configured rate would be more than the price offered, or
/// the escrow is not that price.
pub open spec fn accept_ask_error(ctx: AccpectAsk) -> Option<ProgramErrorCode> {
    if ctx.service_account.current_vendor != ctx.vendor {
        Some(ProgramErrorCode::InvalidCurrentVendor)
    } else if ctx.service_account.original_vendor != ctx.original_vendor {
        Some(ProgramErrorCode::InvalidOriginalVendor)
    } else {
        match ctx.ask_account {
            None => Some(ProgramErrorCode::InvalidNftMint),
            Some(ask) => if ask.nft_mint != ctx.service_account.nft_mint {
                Some(ProgramErrorCode::InvalidNftMint)
            } else if sale_split(
                ask.ask_price,
                ctx.config_account.royalty_fee_basis_points,
                ctx.vendor,
                ctx.original_vendor,
            ) is None || !ask.is_funded() {
                Some(ProgramErrorCode::Overflow)
            } else {
                None
            },
        }
    }
}

/// Sells the service to the asker for the price in escrow, on the word of its
/// current vendor.
///
/// The escrow pays the price offered: all of it to a vendor who is also the
/// original one, else the royalty to the original vendor and the rest to the
/// vendor who sells. The asker becomes the current vendor. The offer is
/// closed, and no escrow is left, in the record or by the transfers. A refused
/// acceptance changes nothing.
pub fn accept_ask(ctx: &mut AccpectAsk) -> (r: Result<Settlement<AcceptAskEvent>, ProgramErrorCode>)
    ensures
        match r {
            Ok(settlement) => {
                let ask = old(ctx).ask_account.unwrap();
                let split = sale_split(
                    ask.ask_price,
                    old(ctx).config_account.royalty_fee_basis_points,
                    old(ctx).vendor,
                    old(ctx).original_vendor,
                ).unwrap();
                &&& accept_ask_error(*old(ctx)) is None
                &&& settlement.transfers@ == sale_transfers(
                    Party::Escrow(ask.nft_mint),
                    old(ctx).vendor,
                    old(ctx).original_vendor,
                    split,
                )
                &&& settlement.event == (AcceptAskEvent {
                    vendor: old(ctx).vendor,
                    asker: ask.asker,
                    original_vendor: old(ctx).original_vendor,
                    nft_mint: ask.nft_mint,
                    ask_price: ask.ask_price,
                    royalty_amount: split.royalty_amount,
                    remaining_amount: split.remaining_amount,
                })
                &&& *final(ctx) == (AccpectAsk {
                    ask_account: None,
                    service_account: ServiceAccount {
                        current_vendor: ask.asker,
                        ..old(ctx).service_account
                    },
                    ..*old(ctx)
                })
                &&& split.royalty_amount + split.remaining_amount == ask.ask_price
                &&& escrow_held(final(ctx).ask_account) == 0
                &&& balance_after(
                    escrow_held(old(ctx).ask_account) as int,
                    settlement.transfers@,
                    Party::Escrow(ask.nft_mint),
                ) == 0
            },
            Err(e) => {
                &&& accept_ask_error(*old(ctx)) == Some(e)
                &&& *final(ctx) == *old(ctx)
            },
        },
{
    require_keys_eq(
        ctx.vendor,
        ctx.service_account.current_vendor,
        ProgramErrorCode::InvalidCurrentVendor,
    )?;
    require_keys_eq(
        ctx.original_vendor,
        ctx.service_account.original_vendor,
        ProgramErrorCode::InvalidOriginalVendor,
    )?;
    let ask = match ctx.ask_account {
        Some(ask) => ask,
        None => { return Err(ProgramErrorCode::InvalidNftMint); },
    };
    require_keys_eq(ask.nft_mint, ctx.service_account.nft_mint, ProgramErrorCode::InvalidNftMint)?;
    let mut transfers: Vec<Transfer> = Vec::new();
    let split = settle_sale(
        &mut transfers,
        Party::Escrow(ask.nft_mint),
        ctx.vendor,
        ctx.original_vendor,
        ask.ask_price,
        ctx.config_account.royalty_fee_basis_points,
    )?;
    // The escrow pays both parts, and has to be empty after them.
    let after_royalty = ask.escrow.checked_sub(split.royalty_amount).ok_or(
        ProgramErrorCode::Overflow,
    )?;
    let left = after_royalty.checked_sub(split.remaining_amount).ok_or(
        ProgramErrorCode::Overflow,
    )?;
    if left != 0 {
        return Err(ProgramErrorCode::Overflow);
    }
    proof {
        lemma_sale_conserves_funds(
            Party::Escrow(ask.nft_mint),
            ctx.vendor,
            ctx.original_vendor,
            ask.ask_price,
            ctx.config_account.royalty_fee_basis_points,
        );
    }
    ctx.service_account.current_vendor = ask.asker;
    ctx.ask_account = None;
    let event = AcceptAskEvent {
        vendor: ctx.vendor,
        asker: ask.asker,
        original_vendor: ctx.original_vendor,
        nft_mint: ask.nft_mint,
        ask_price: ask.ask_price,
        royalty_amount: split.royalty_amount,
        remaining_amount: split.remaining_amount,
    };
    Ok(Settlement { transfers, event })
}

/// Only the current vendor of a service accepts an ask on it, and only with
/// its original vendor named: anyone else is refused, whatever the ask.
pub proof fn lemma_accept_ask_guards(ctx: AccpectAsk)
    ensures
        ctx.vendor != ctx.service_account.current_vendor ==> accept_ask_error(ctx) == Some(
            ProgramErrorCode::InvalidCurrentVendor,
        ),
        ctx.vendor == ctx.service_account.current_vendor && ctx.original_vendor
            != ctx.service_account.original_vendor ==> accept_ask_error(ctx) == Some(
            ProgramErrorCode::InvalidOriginalVendor,
        ),
{
}

} // verus!
