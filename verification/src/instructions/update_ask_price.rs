use crate::error::ProgramErrorCode;
use crate::guard::require_keys_eq;
use crate::helper::{balance_after, Party, Settlement, Transfer};
use crate::pubkey::Pubkey;
use crate::states::ask::{
    escrow_adjustment, escrow_held, lemma_escrow_adjustment_balances, AskAccount,
};
use vstd::prelude::*;

verus! {

/// What the repricing of an ask works on.
#[derive(Clone, Copy, Debug, PartialEq, Eq)]
pub struct UpdateAskPrice {
    /// Who asks for the change.
    pub asker: Pubkey,
    /// The ask of the asset: `None` where no offer is open.
    pub ask_account: Option<AskAccount>,
}

/// Announces the repricing of an ask.
#[derive(Clone, Copy, Debug, PartialEq, Eq)]
pub struct UpdateAskPriceEvent {
    pub asker: Pubkey,
    pub nft_mint: Pubkey,
    pub old_ask_price: u64,
    pub new_ask_price: u64,
}

/// Why the repricing of an ask is refused, if it is: no offer is open, so that
/// nobody has one to reprice; the caller did not make the open offer; or else
/// the escrow of the offer is not its price.
pub open spec fn update_ask_price_error(ctx: UpdateAskPrice) -> Option<ProgramErrorCode> {
    match ctx.ask_account {
        None => Some(ProgramErrorCode::Unauthorized),
        Some(ask) => if ask.asker != ctx.asker {
            Some(ProgramErrorCode::Unauthorized)
        } else if !ask.is_funded() {
            Some(ProgramErrorCode::Overflow)
        } else {
            None
        },
    }
}

/// Changes the price of an open ask, on the word of the one who made it.
///
/// To a higher price the asker pays the difference into the escrow; from a
/// lower one the escrow pays the difference back; to the same price nothing
/// moves. Afterwards the escrow is the new price, in the record and by the
/// transfers. A refused change alters nothing.
pub fn update_ask_price(ctx: &mut UpdateAskPrice, new_ask_price: u64) -> (r: Result<
    Settlement<UpdateAskPriceEvent>,
    ProgramErrorCode,
>)
    ensures
        match r {
            Ok(settlement) => {
                let ask = old(ctx).ask_account.unwrap();
                &&& update_ask_price_error(*old(ctx)) is None
                &&& settlement.transfers@ == escrow_adjustment(
                    ask.asker,
                    ask.nft_mint,
                    ask.ask_price,
                    new_ask_price,
                )
                &&& settlement.event == (UpdateAskPriceEvent {
                    asker: old(ctx).asker,
                    nft_mint: ask.nft_mint,
                    old_ask_price: ask.ask_price,
                    new_ask_price,
                })
                &&& *final(ctx) == (UpdateAskPrice {
                    ask_account: Some(
                        AskAccount { ask_price: new_ask_price, escrow: new_ask_price, ..ask },
                    ),
                    ..*old(ctx)
                })
                &&& escrow_held(final(ctx).ask_account) == new_ask_price
                &&& balance_after(
                    escrow_held(old(ctx).ask_account) as int,
                    settlement.transfers@,
                    Party::Escrow(ask.nft_mint),
                ) == escrow_held(final(ctx).ask_account)
            },
            Err(e) => {
                &&& update_ask_price_error(*old(ctx)) == Some(e)
                &&& *final(ctx) == *old(ctx)
            },
        },
{
    let mut ask = match ctx.ask_account {
        Some(ask) => ask,
        None => { return Err(ProgramErrorCode::Unauthorized); },
    };
    require_keys_eq(ctx.asker, ask.asker, ProgramErrorCode::Unauthorized)?;
    let old_ask_price = ask.ask_price;
    let mut transfers: Vec<Transfer> = Vec::new();
    ask.reprice(&mut transfers, new_ask_price)?;
    ctx.ask_account = Some(ask);
    proof {
        lemma_escrow_adjustment_balances(ask.asker, ask.nft_mint, old_ask_price, new_ask_price);
    }
    let event = UpdateAskPriceEvent {
        asker: ctx.asker,
        nft_mint: ask.nft_mint,
        old_ask_price,
        new_ask_price,
    };
    Ok(Settlement { transfers, event })
}

/// Only the one who made an ask reprices it: anyone else is refused, and so is
/// everyone where no ask is open.
pub proof fn lemma_update_ask_price_guards(ctx: UpdateAskPrice)
    ensures
        ctx.ask_account is None || ctx.asker != ctx.ask_account.unwrap().asker
            ==> update_ask_price_error(ctx) == Some(ProgramErrorCode::Unauthorized),
{
}

} // verus!
