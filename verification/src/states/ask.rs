use crate::error::ProgramErrorCode;
use crate::helper::{balance_after, paid, received, send_lamports, Party, Transfer};
use crate::pubkey::Pubkey;
use vstd::prelude::*;

verus! {

/// Seed of the address at which an ask is kept, beside its asset.
pub const ASK_SEED: &'static str = "ask";

/// An open offer to take over a service, with its price held in escrow.
///
/// An asset has at most one: where none is open the slot holds `None`, and no
/// escrow is held.
#[derive(Clone, Copy, Debug, PartialEq, Eq)]
pub struct AskAccount {
    /// Bump of the record's address.
    pub bump: u8,
    /// Who makes the offer and has paid the escrow.
    pub asker: Pubkey,
    /// The asset that the offer is for.
    pub nft_mint: Pubkey,
    /// The price offered, in lamports.
    pub ask_price: u64,
    /// The lamports held for the offer.
    pub escrow: u64,
}

/// The lamports that an ask slot holds: those of the open offer, or none.
pub open spec fn escrow_held(slot: Option<AskAccount>) -> nat {
    match slot {
        Some(ask) => ask.escrow as nat,
        None => 0,
    }
}

/// The transfer that brings an escrow of `held` lamports to `target`: the asker
/// pays in what is short, or gets back what is over; none where nothing is.
pub open spec fn escrow_adjustment(asker: Pubkey, nft_mint: Pubkey, held: u64, target: u64) -> Seq<
    Transfer,
> {
    if target > held {
        seq![
            Transfer {
                from: Party::Wallet(asker),
                to: Party::Escrow(nft_mint),
                amount: (target - held) as u64,
            },
        ]
    } else if target < held {
        seq![
            Transfer {
                from: Party::Escrow(nft_mint),
                to: Party::Wallet(asker),
                amount: (held - target) as u64,
            },
        ]
    } else {
        Seq::empty()
    }
}

impl AskAccount {
    /// The escrow covers the price offered, to the lamport.
    pub open spec fn is_funded(&self) -> bool {
        self.escrow == self.ask_price
    }

    /// A new offer of `ask_price` by `asker` for `nft_mint`, with the transfer
    /// that fills its escrow.
    pub fn open(
        transfers: &mut Vec<Transfer>,
        bump: u8,
        asker: Pubkey,
        nft_mint: Pubkey,
        ask_price: u64,
    ) -> (ask: AskAccount)
        ensures
            ask == (AskAccount { bump, asker, nft_mint, ask_price, escrow: ask_price }),
            ask.is_funded(),
            final(transfers)@ == old(transfers)@ + escrow_adjustment(asker, nft_mint, 0, ask_price),
    {
        if ask_price > 0 {
            send_lamports(transfers, Party::Wallet(asker), Party::Escrow(nft_mint), ask_price);
        }
        assert(transfers@ =~= old(transfers)@ + escrow_adjustment(asker, nft_mint, 0, ask_price));
        AskAccount { bump, asker, nft_mint, ask_price, escrow: ask_price }
    }

    /// Changes the price offered to `new_ask_price` and brings the escrow along:
    /// the asker pays in the difference to a higher price and gets back the
    /// difference to a lower one.
    ///
    /// The escrow is the new price afterwards. An offer whose escrow is not
    /// its price cannot be brought there by the difference of the prices: it is
    /// refused with `Overflow` and left as it is.
    pub fn reprice(&mut self, transfers: &mut Vec<Transfer>, new_ask_price: u64) -> (r: Result<
        (),
        ProgramErrorCode,
    >)
        ensures
            match r {
                Ok(()) => {
                    &&& old(self).is_funded()
                    &&& *final(self) == (AskAccount {
                        ask_price: new_ask_price,
                        escrow: new_ask_price,
                        ..*old(self)
                    })
                    &&& final(self).is_funded()
                    &&& final(transfers)@ == old(transfers)@ + escrow_adjustment(
                        old(self).asker,
                        old(self).nft_mint,
                        old(self).ask_price,
                        new_ask_price,
                    )
                },
                Err(e) => {
                    &&& e == ProgramErrorCode::Overflow
                    &&& !old(self).is_funded()
                    &&& *final(self) == *old(self)
                    &&& final(transfers)@ == old(transfers)@
                },
            },
    {
        let old_ask_price = self.ask_price;
        let escrow: u64 = if new_ask_price > old_ask_price {
            let additional_lamports = new_ask_price.checked_sub(old_ask_price).ok_or(
                ProgramErrorCode::Overflow,
            )?;
            self.escrow.checked_add(additional_lamports).ok_or(ProgramErrorCode::Overflow)?
        } else {
            let refund_lamports = old_ask_price.checked_sub(new_ask_price).ok_or(
                ProgramErrorCode::Overflow,
            )?;
            self.escrow.checked_sub(refund_lamports).ok_or(ProgramErrorCode::Overflow)?
        };
        if escrow != new_ask_price {
            return Err(ProgramErrorCode::Overflow);
        }
        if new_ask_price > old_ask_price {
            send_lamports(
                transfers,
                Party::Wallet(self.asker),
                Party::Escrow(self.nft_mint),
                new_ask_price - old_ask_price,
            );
        } else if new_ask_price < old_ask_price {
            send_lamports(
                transfers,
                Party::Escrow(self.nft_mint),
                Party::Wallet(self.asker),
                old_ask_price - new_ask_price,
            );
        }
        assert(transfers@ =~= old(transfers)@ + escrow_adjustment(
            self.asker,
            self.nft_mint,
            old_ask_price,
            new_ask_price,
        ));
        self.ask_price = new_ask_price;
        self.escrow = escrow;
        Ok(())
    }
}

/// The transfer that adjusts an escrow moves the difference between the escrow
/// and the asker, and nothing else: the escrow holds the target afterwards,
/// the asker has paid or got back the difference, and nobody else is touched.
pub proof fn lemma_escrow_adjustment_balances(
    asker: Pubkey,
    nft_mint: Pubkey,
    held: u64,
    target: u64,
)
    ensures
        ({
            let transfers = escrow_adjustment(asker, nft_mint, held, target);
            &&& balance_after(held as int, transfers, Party::Escrow(nft_mint)) == target
            &&& balance_after(0, transfers, Party::Wallet(asker)) == held - target
            &&& forall|who: Party|
                who != Party::Escrow(nft_mint) && who != Party::Wallet(asker) ==> received(
                    transfers,
                    who,
                ) == 0 && paid(transfers, who) == 0
        }),
{
    let transfers = escrow_adjustment(asker, nft_mint, held, target);
    reveal_with_fuel(received, 2);
    reveal_with_fuel(paid, 2);
    assert(transfers.len() > 0 ==> transfers.drop_last() =~= Seq::<Transfer>::empty());
}

} // verus!
