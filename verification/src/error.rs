use vstd::prelude::*;

verus! {

/// Why an instruction was refused. A refused instruction changes nothing.
#[derive(Clone, Copy, Debug, PartialEq, Eq, Structural, Hash)]
pub enum ProgramErrorCode {
    /// The record exists already and is created only once.
    AlreadyInitialized,
    /// The caller is not the identity that the record names for this action.
    Unauthorized,
    /// The size of the mint account cannot be computed.
    InvalidMintAccountSpace,
    /// The metadata pointer of the mint cannot be set up.
    CantInitializeMetadataPointer,
    /// A checked operation left the range of its type.
    Overflow,
    /// A rate is taken out of a denominator of zero.
    DivideByZero,
    /// The asset is soulbound and never leaves custody.
    NotSupportSoulBound,
    /// The current vendor handed in is not the one in the service record.
    InvalidCurrentVendor,
    /// The original vendor handed in is not the one in the service record.
    InvalidOriginalVendor,
    /// The records at hand do not speak of the same asset.
    InvalidNftMint,
}

} // verus!
