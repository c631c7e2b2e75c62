use crate::error::ProgramErrorCode;
use crate::fee::{calculate_royalty, royalty_of, RoyaltySplit};
use crate::pubkey::Pubkey;
use vstd::prelude::*;

verus! {

/// A holder of lamports.
#[derive(Clone, Copy, Debug, PartialEq, Eq)]
pub enum Party {
    /// The account of an identity.
    Wallet(Pubkey),
    /// The escrow of the ask on an asset.
    Escrow(Pubkey),
}

/// An order to move `amount` lamports from one holder to another, in full or not
/// at all.
#[derive(Clone, Copy, Debug, PartialEq, Eq)]
pub struct Transfer {
    pub from: Party,
    pub to: Party,
    pub amount: u64,
}

/// An order to hand `amount` tokens of `nft_mint` out of custody to `to`.
#[derive(Clone, Copy, Debug, PartialEq, Eq)]
pub struct NftTransfer {
    pub nft_mint: Pubkey,
    pub to: Pubkey,
    pub amount: u64,
}

/// What a successful instruction hands back: the transfers to carry out, in
/// order and all or none of them, and the event to announce.
#[derive(Clone, Debug, PartialEq, Eq)]
pub struct Settlement<E> {
    pub transfers: Vec<Transfer>,
    pub event: E,
}

/// The lamports that `transfers` pay to `who`.
pub open spec fn received(transfers: Seq<Transfer>, who: Party) -> nat
    decreases transfers.len(),
{
    if transfers.len() == 0 {
        0
    } else {
        let last = transfers.last();
        received(transfers.drop_last(), who) + if last.to == who {
            last.amount as nat
        } else {
            0
        }
    }
}

/// The lamports that `transfers` take from `who`.
pub open spec fn paid(transfers: Seq<Transfer>, who: Party) -> nat
    decreases transfers.len(),
{
    if transfers.len() == 0 {
        0
    } else {
        let last = transfers.last();
        paid(transfers.drop_last(), who) + if last.from == who {
            last.amount as nat
        } else {
            0
        }
    }
}

/// What `who` holds after `transfers`, having held `balance` before them.
pub open spec fn balance_after(balance: int, transfers: Seq<Transfer>, who: Party) -> int {
    balance + received(transfers, who) - paid(transfers, who)
}

/// Orders the transfer of `amount` lamports from `from` to `to`, after those
/// ordered before.
pub fn send_lamports(transfers: &mut Vec<Transfer>, from: Party, to: Party, amount: u64)
    ensures
        final(transfers)@ == old(transfers)@.push((Transfer { from, to, amount })),
{
    transfers.push(Transfer { from, to, amount });
}

/// Orders the handing of the one token of `nft_mint` out of custody to `to`.
pub fn transfer_nft_from_pool_to_user(nft_mint: Pubkey, to: Pubkey) -> (order: NftTransfer)
    ensures
        order == (NftTransfer { nft_mint, to, amount: 1 }),
{
    NftTransfer { nft_mint, to, amount: 1 }
}

/// How the price of a sale is cut: all of it to a vendor who is also the
/// original one, else the royalty at `rate` and the rest. `None` where the
/// royalty would be more than the price.
pub open spec fn sale_split(price: u64, rate: u16, current_vendor: Pubkey, original_vendor: Pubkey)
    -> Option<RoyaltySplit> {
    if current_vendor == original_vendor {
        Some(RoyaltySplit { royalty_amount: 0, remaining_amount: price })
    } else if royalty_of(price as nat, rate as nat) <= price {
        Some(
            RoyaltySplit {
                royalty_amount: royalty_of(price as nat, rate as nat) as u64,
                remaining_amount: (price - royalty_of(price as nat, rate as nat)) as u64,
            },
        )
    } else {
        None
    }
}

/// The transfers of a sale that `payer` pays for: one to a vendor who is also
/// the original one; else the royalty to the original vendor, then the rest to
/// the current one.
pub open spec fn sale_transfers(
    payer: Party,
    current_vendor: Pubkey,
    original_vendor: Pubkey,
    split: RoyaltySplit,
) -> Seq<Transfer> {
    if current_vendor == original_vendor {
        seq![
            Transfer {
                from: payer,
                to: Party::Wallet(current_vendor),
                amount: split.remaining_amount,
            },
        ]
    } else {
        seq![
            Transfer {
                from: payer,
                to: Party::Wallet(original_vendor),
                amount: split.royalty_amount,
            },
            Transfer {
                from: payer,
                to: Party::Wallet(current_vendor),
                amount: split.remaining_amount,
            },
        ]
    }
}

/// Cuts the price of a sale and orders its transfers from `payer`.
///
/// No transfer is ordered where the cut fails.
pub fn settle_sale(
    transfers: &mut Vec<Transfer>,
    payer: Party,
    current_vendor: Pubkey,
    original_vendor: Pubkey,
    price: u64,
    rate: u16,
) -> (r: Result<RoyaltySplit, ProgramErrorCode>)
    ensures
        match r {
            Ok(split) => {
                &&& sale_split(price, rate, current_vendor, original_vendor) == Some(split)
                &&& final(transfers)@ == old(transfers)@ + sale_transfers(
                    payer,
                    current_vendor,
                    original_vendor,
                    split,
                )
            },
            Err(e) => {
                &&& e == ProgramErrorCode::Overflow
                &&& sale_split(price, rate, current_vendor, original_vendor) is None
                &&& final(transfers)@ == old(transfers)@
            },
        },
{
    if current_vendor != original_vendor {
        let split = calculate_royalty(price, rate)?;
        send_lamports(transfers, payer, Party::Wallet(original_vendor), split.royalty_amount);
        send_lamports(transfers, payer, Party::Wallet(current_vendor), split.remaining_amount);
        assert(transfers@ =~= old(transfers)@ + sale_transfers(
            payer,
            current_vendor,
            original_vendor,
            split,
        ));
        Ok(split)
    } else {
        let split = RoyaltySplit { royalty_amount: 0, remaining_amount: price };
        send_lamports(transfers, payer, Party::Wallet(current_vendor), price);
        assert(transfers@ =~= old(transfers)@ + sale_transfers(
            payer,
            current_vendor,
            original_vendor,
            split,
        ));
        Ok(split)
    }
}

/// A sale moves the price and nothing else: the payer pays all of it, the two
/// vendors get all of it, and nobody else gets anything. Where the current
/// vendor is not the original one, the original one gets the royalty at the
/// rate, rounded down, and the current one the rest.
pub proof fn lemma_sale_conserves_funds(
    payer: Party,
    current_vendor: Pubkey,
    original_vendor: Pubkey,
    price: u64,
    rate: u16,
)
    requires
        sale_split(price, rate, current_vendor, original_vendor) is Some,
    ensures
        ({
            let split = sale_split(price, rate, current_vendor, original_vendor).unwrap();
            let transfers = sale_transfers(payer, current_vendor, original_vendor, split);
            &&& split.royalty_amount + split.remaining_amount == price
            &&& paid(transfers, payer) == price
            &&& forall|who: Party| who != payer ==> paid(transfers, who) == 0
            &&& current_vendor != original_vendor ==> {
                &&& split.royalty_amount == royalty_of(price as nat, rate as nat)
                &&& received(transfers, Party::Wallet(original_vendor)) == split.royalty_amount
                &&& received(transfers, Party::Wallet(current_vendor)) == split.remaining_amount
            }
            &&& forall|who: Party|
                who != Party::Wallet(current_vendor) && who != Party::Wallet(original_vendor)
                    ==> received(transfers, who) == 0
        }),
{
    let split = sale_split(price, rate, current_vendor, original_vendor).unwrap();
    let transfers = sale_transfers(payer, current_vendor, original_vendor, split);
    reveal_with_fuel(received, 3);
    reveal_with_fuel(paid, 3);
    if current_vendor != original_vendor {
        assert(transfers.drop_last() =~= seq![transfers[0]]);
        assert(transfers.drop_last().drop_last() =~= Seq::<Transfer>::empty());
    } else {
        assert(transfers.drop_last() =~= Seq::<Transfer>::empty());
    }
}

/// A vendor who is also the original one owes no royalty: whatever the rate,
/// the sale is one transfer of the whole price to that vendor.
pub proof fn lemma_self_royalty_exempt(payer: Party, vendor: Pubkey, price: u64, rate: u16)
    ensures
        sale_split(price, rate, vendor, vendor) == Some(
            RoyaltySplit { royalty_amount: 0, remaining_amount: price },
        ),
        sale_transfers(payer, vendor, vendor, sale_split(price, rate, vendor, vendor).unwrap())
            == seq![Transfer { from: payer, to: Party::Wallet(vendor), amount: price }],
        received(
            sale_transfers(payer, vendor, vendor, sale_split(price, rate, vendor, vendor).unwrap()),
            Party::Wallet(vendor),
        ) == price,
{
    let split = sale_split(price, rate, vendor, vendor).unwrap();
    let transfers = sale_transfers(payer, vendor, vendor, split);
    reveal_with_fuel(received, 2);
    assert(transfers.drop_last() =~= Seq::<Transfer>::empty());
}

} // verus!
