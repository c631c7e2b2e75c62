use crate::error::ProgramErrorCode;
use crate::pubkey::Pubkey;
use vstd::prelude::*;

verus! {

/// Lets `actual` pass where a record names it as `expected`, and refuses it
/// with `refusal` where it does not.
///
/// Every instruction runs its guards before it changes a record or orders a
/// transfer, so that a refused caller leaves no trace.
pub fn require_keys_eq(actual: Pubkey, expected: Pubkey, refusal: ProgramErrorCode) -> (r: Result<
    (),
    ProgramErrorCode,
>)
    ensures
        r == (if actual == expected {
            Ok::<(), ProgramErrorCode>(())
        } else {
            Err::<(), ProgramErrorCode>(refusal)
        }),
{
    if actual == expected {
        Ok(())
    } else {
        Err(refusal)
    }
}

} // verus!
