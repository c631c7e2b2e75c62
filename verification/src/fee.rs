use crate::constant::MAX_FEE_BASIS_POINTS;
use crate::error::ProgramErrorCode;
use vstd::prelude::*;

verus! {

/// The share that `rate` parts out of `denominator` take of `amount`, rounded down.
pub open spec fn share_of(amount: nat, rate: nat, denominator: nat) -> nat
    recommends
        denominator > 0,
{
    (amount * rate / denominator) as nat
}

/// The royalty on `price` at `rate` basis points, rounded down.
pub open spec fn royalty_of(price: nat, rate: nat) -> nat {
    share_of(price, rate, MAX_FEE_BASIS_POINTS as nat)
}

/// A price cut in two: what the original vendor gets and what is left for the seller.
#[derive(Clone, Copy, Debug, PartialEq, Eq, Structural)]
pub struct RoyaltySplit {
    pub royalty_amount: u64,
    pub remaining_amount: u64,
}

/// Cuts `amount` into the share of `rate` parts out of `denominator` and the rest.
///
/// The product is taken in 128 bits, so it cannot wrap. A denominator of zero is
/// `DivideByZero`; a share above `amount`, which only a rate above the denominator
/// can give, is `Overflow`.
pub fn split_amount(amount: u64, rate: u16, denominator: u16) -> (r: Result<
    RoyaltySplit,
    ProgramErrorCode,
>)
    ensures
        match r {
            Ok(split) => {
                &&& denominator != 0
                &&& share_of(amount as nat, rate as nat, denominator as nat) <= amount
                &&& split.royalty_amount == share_of(amount as nat, rate as nat, denominator as nat)
                &&& split.remaining_amount == amount - split.royalty_amount
            },
            Err(e) => if denominator == 0 {
                e == ProgramErrorCode::DivideByZero
            } else {
                &&& e == ProgramErrorCode::Overflow
                &&& share_of(amount as nat, rate as nat, denominator as nat) > amount
            },
        },
{
    assert(amount * rate <= 0xffff_ffff_ffff_ffff * 0xffff) by (nonlinear_arith)
        requires
            0 <= amount <= 0xffff_ffff_ffff_ffff,
            0 <= rate <= 0xffff,
    ;
    let product: u128 = match (amount as u128).checked_mul(rate as u128) {
        Some(product) => product,
        None => { return Err(ProgramErrorCode::Overflow); },
    };
    let share: u128 = match product.checked_div(denominator as u128) {
        Some(share) => share,
        None => { return Err(ProgramErrorCode::DivideByZero); },
    };
    if share > amount as u128 {
        return Err(ProgramErrorCode::Overflow);
    }
    let royalty_amount: u64 = share as u64;
    match amount.checked_sub(royalty_amount) {
        Some(remaining_amount) => Ok(RoyaltySplit { royalty_amount, remaining_amount }),
        None => Err(ProgramErrorCode::Overflow),
    }
}

/// The royalty split of `price` at `royalty_fee_basis_points` out of 10000:
/// `royalty = floor(price * rate / 10000)` and `remaining = price - royalty`.
///
/// It fails, with `Overflow`, exactly when the royalty would be more than the price.
pub fn calculate_royalty(price: u64, royalty_fee_basis_points: u16) -> (r: Result<
    RoyaltySplit,
    ProgramErrorCode,
>)
    ensures
        match r {
            Ok(split) => {
                &&& royalty_of(price as nat, royalty_fee_basis_points as nat) <= price
                &&& split.royalty_amount == royalty_of(price as nat, royalty_fee_basis_points as nat)
                &&& split.remaining_amount == price - split.royalty_amount
            },
            Err(e) => {
                &&& e == ProgramErrorCode::Overflow
                &&& royalty_of(price as nat, royalty_fee_basis_points as nat) > price
            },
        },
{
    split_amount(price, royalty_fee_basis_points, MAX_FEE_BASIS_POINTS)
}

/// A rate of at most 10000 basis points never takes more than the price, so the
/// split of any price at such a rate is defined.
pub proof fn lemma_rate_in_range_fits(price: u64, rate: u16)
    requires
        rate <= MAX_FEE_BASIS_POINTS,
    ensures
        royalty_of(price as nat, rate as nat) <= price,
{
    assert(price * rate <= price * 10000) by (nonlinear_arith)
        requires
            0 <= rate <= 10000,
            0 <= price,
    ;
    assert((price * rate) / 10000 <= (price * 10000) / 10000) by (nonlinear_arith)
        requires
            price * rate <= price * 10000,
    ;
    assert((price * 10000) / 10000 == price) by (nonlinear_arith);
}

} // verus!
