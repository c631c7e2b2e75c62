use crate::error::ProgramErrorCode;
use crate::guard::require_keys_eq;
use crate::helper::{balance_after, Party, Settlement, Transfer};
use crate::pubkey::Pubkey;
use crate::states::ask::{
    escrow_adjustment, escrow_held, lemma_escrow_adjustment_balances, AskAccount,
};
use vstd::prelude::*;

verus! {

/// What the making of an ask works on.
#[derive(Clone, Copy, Debug, PartialEq, Eq)]
pub struct AskService {
    /// Who makes the offer.
    pub asker: Pubkey,
    /// The asset that the offer is for.
    pub nft_mint: Pubkey,
    /// Bump of the address of the asset's ask.
    pub bump: u8,
    /// The ask of the asset: `None` where no offer is open.
    pub ask_account: Option<AskAccount>,
}

/// Announces an ask.
#[derive(Clone, Copy, Debug, PartialEq, Eq)]
pub struct AskServiceEvent {
    pub asker: Pubkey,
    pub nft_mint: Pubkey,
    pub ask_price: u64,
}

/// Why an ask is refused, if it is. Where no offer is open, never. Else the
/// first of these that holds: the caller did not make the open offer; the
/// open offer is for another asset; its escrow is not its price.
pub open spec fn ask_service_error(ctx: AskService) -> Option<ProgramErrorCode> {
    match ctx.ask_account {
        None => None,
        Some(ask) => if ask.asker != ctx.asker {
            Some(ProgramErrorCode::Unauthorized)
        } else if ask.nft_mint != ctx.nft_mint {
            Some(ProgramErrorCode::InvalidNftMint)
        } else if !ask.is_funded() {
            Some(ProgramErrorCode::Overflow)
        } else {
            None
        },
    }
}

/// The ask that the slot holds after a successful offer of `ask_price`.
pub open spec fn ask_after(ctx: AskService, ask_price: u64) -> AskAccount {
    AskAccount {
        bump: match ctx.ask_account {
            Some(ask) => ask.bump,
            None => ctx.bump,
        },
        asker: ctx.asker,
        nft_mint: ctx.nft_mint,
        ask_price,
        escrow: ask_price,
    }
}

/// Offers `ask_price` for the asset, held in escrow.
///
/// Where no offer is open, one is made and the asker pays the price into the
/// escrow. Where the asker's own offer is open, it is repriced: only the
/// difference moves. Either way the escrow is the price offered afterwards, in
/// the record and by the transfers. The open offer of another is not touched.
/// A refused ask changes nothing.
pub fn ask_service(ctx: &mut AskService, ask_price: u64) -> (r: Result<
    Settlement<AskServiceEvent>,
    ProgramErrorCode,
>)
    ensures
        match r {
            Ok(settlement) => {
                &&& ask_service_error(*old(ctx)) is None
                &&& settlement.transfers@ == escrow_adjustment(
                    old(ctx).asker,
                    old(ctx).nft_mint,
                    escrow_held(old(ctx).ask_account) as u64,
                    ask_price,
                )
                &&& settlement.event == (AskServiceEvent {
                    asker: old(ctx).asker,
                    nft_mint: old(ctx).nft_mint,
                    ask_price,
                })
                &&& *final(ctx) == (AskService {
                    ask_account: Some(ask_after(*old(ctx), ask_price)),
                    ..*old(ctx)
                })
                &&& escrow_held(final(ctx).ask_account) == ask_price
                &&& balance_after(
                    escrow_held(old(ctx).ask_account) as int,
                    settlement.transfers@,
                    Party::Escrow(old(ctx).nft_mint),
                ) == escrow_held(final(ctx).ask_account)
            },
            Err(e) => {
                &&& ask_service_error(*old(ctx)) == Some(e)
                &&& *final(ctx) == *old(ctx)
            },
        },
{
    let mut transfers: Vec<Transfer> = Vec::new();
    let ask = match ctx.ask_account {
        Some(open) => {
            require_keys_eq(ctx.asker, open.asker, ProgramErrorCode::Unauthorized)?;
            require_keys_eq(ctx.nft_mint, open.nft_mint, ProgramErrorCode::InvalidNftMint)?;
            let mut ask = open;
            ask.reprice(&mut transfers, ask_price)?;
            ask
        },
        None => AskAccount::open(&mut transfers, ctx.bump, ctx.asker, ctx.nft_mint, ask_price),
    };
    proof {
        lemma_escrow_adjustment_balances(
            ctx.asker,
            ctx.nft_mint,
            escrow_held(ctx.ask_account) as u64,
            ask_price,
        );
    }
    ctx.ask_account = Some(ask);
    let event = AskServiceEvent { asker: ctx.asker, nft_mint: ctx.nft_mint, ask_price };
    Ok(Settlement { transfers, event })
}

/// An open ask is its asker's: an ask by anyone else is refused while it is
/// open.
pub proof fn lemma_ask_service_guards(ctx: AskService)
    ensures
        ctx.ask_account is Some && ctx.asker != ctx.ask_account.unwrap().asker
            ==> ask_service_error(ctx) == Some(ProgramErrorCode::Unauthorized),
{
}

} // verus!
