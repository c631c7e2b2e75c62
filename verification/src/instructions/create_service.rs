use crate::constant::{
    ASSET_DECIMALS, ASSET_SUPPLY, METADATA_AGREEMENT_SPACE, METADATA_BASE_SPACE, MINT_ACCOUNT_LEN,
};
use crate::error::ProgramErrorCode;
use crate::pubkey::Pubkey;
use crate::states::service::{ServiceAccount, ServiceAgreement};
use anchor_lang::prelude::ProgramError;
use anchor_spl::token_2022::spl_token_2022;
use anchor_spl::token_2022::spl_token_2022::extension::metadata_pointer;
use anchor_spl::token_2022::spl_token_2022::extension::ExtensionType;
use anchor_spl::token_2022::spl_token_2022::state::Mint;
use vstd::prelude::*;

verus! {

/// What the listing of a service works on.
#[derive(Clone, Debug, PartialEq, Eq)]
pub struct ListService {
    /// Who lists the service.
    pub vendor: Pubkey,
    /// The asset that will stand for the service.
    pub nft_mint: Pubkey,
    /// Address of the configuration record, which holds the assets in custody.
    pub config: Pubkey,
    /// Bump of the address of the asset's service record.
    pub bump: u8,
    /// The service record of the asset: `None` where it was not listed yet.
    pub service_account: Option<ServiceAccount>,
}

/// One step in the making of an asset.
#[derive(Clone, Copy, Debug, PartialEq, Eq)]
pub enum MintStep {
    /// Create the mint account, with the plan's space and the balance that
    /// exempts the plan's rent space from rent.
    CreateAccount,
    /// Hand the mint account to the token program.
    Assign,
    /// Point the mint at itself for its metadata, under the custody's authority.
    InitializeMetadataPointer,
    /// Make the tokens of the mint non-transferable.
    InitializeNonTransferable,
    /// Set the mint up with this many decimals, under the custody's authority.
    InitializeMint { decimals: u8 },
    /// Write the name, the symbol and the address of the metadata.
    InitializeMetadata,
    /// Write the agreement with this index into the metadata: the title is the
    /// field and the details are its value.
    UpdateField(usize),
    /// Create the custody's token account for the mint.
    CreateTokenAccount,
    /// Mint this many tokens into the custody's token account.
    MintTo { amount: u64 },
    /// Give up the authority to mint, so that no second token is ever made.
    RevokeMintAuthority,
}

/// How the asset of a service is made: the sizes of its mint account and the
/// steps to take, in order.
#[derive(Clone, Debug, PartialEq, Eq)]
pub struct MintPlan {
    /// Bytes of the mint account.
    pub space: u64,
    /// Bytes that the balance of the mint account exempts from rent: those of
    /// the account and of the metadata to come.
    pub rent_space: usize,
    pub steps: Vec<MintStep>,
}

/// The bytes to exempt from rent for a mint account of `mint_len` bytes whose
/// metadata holds `agreements` agreements.
pub open spec fn mint_rent_space(mint_len: nat, agreements: nat) -> nat {
    mint_len + METADATA_BASE_SPACE as nat + agreements * METADATA_AGREEMENT_SPACE as nat
}

/// The steps that write the first `count` agreements, in order.
pub open spec fn agreement_steps(count: nat) -> Seq<MintStep> {
    Seq::new(count, |i: int| MintStep::UpdateField(i as usize))
}

/// The steps that make an asset with `agreements` agreements: a mint without
/// decimals, of which one token is minted into custody before the authority
/// to mint is given up. A soulbound one is made non-transferable before its
/// mint is set up.
pub open spec fn mint_steps(is_soulbound: bool, agreements: nat) -> Seq<MintStep> {
    seq![MintStep::CreateAccount, MintStep::Assign, MintStep::InitializeMetadataPointer] + (
    if is_soulbound {
        seq![MintStep::InitializeNonTransferable]
    } else {
        Seq::empty()
    }) + seq![
        MintStep::InitializeMint { decimals: ASSET_DECIMALS },
        MintStep::InitializeMetadata,
    ] + agreement_steps(agreements) + seq![
        MintStep::CreateTokenAccount,
        MintStep::MintTo { amount: ASSET_SUPPLY },
        MintStep::RevokeMintAuthority,
    ]
}

/// A plan is the one for a mint account of its own space, this flag and this
/// many agreements.
pub open spec fn is_mint_plan(plan: MintPlan, is_soulbound: bool, agreements: nat) -> bool {
    &&& plan.rent_space == mint_rent_space(plan.space as nat, agreements)
    &&& plan.steps@ == mint_steps(is_soulbound, agreements)
}

#[verifier::external_type_specification]
#[verifier::external_body]
pub struct ExProgramError(ProgramError);

/// `ExtensionType::try_calculate_account_len` of spl-token-2022, for a mint
/// with the metadata pointer as its one extension: the bytes that such a mint
/// account takes. The call fails only for an extension of variable length,
/// which the pointer is not, and adds up the 165 bytes of a token account, 1
/// of the account's type, 2 of the extension's type, 2 of its length and the
/// 64 of the pointer's two addresses.
#[verifier::external_body]
fn mint_account_len() -> (r: Result<usize, ProgramError>)
    ensures
        r is Ok,
        r->Ok_0 == MINT_ACCOUNT_LEN,
{
    ExtensionType::try_calculate_account_len::<Mint>(&[ExtensionType::MetadataPointer])
}

/// `metadata_pointer::instruction::initialize` of spl-token-2022, for the
/// token program itself, with `authority` as the authority over the pointer
/// and `mint` as both the mint and the address of its metadata. The
/// instruction is built if and only if neither address is the one of all
/// zeros; it is not kept.
#[verifier::external_body]
fn metadata_pointer_instruction(mint: &Pubkey, authority: &Pubkey) -> (r: Result<(), ProgramError>)
    ensures
        r.is_ok() == (!mint.is_default() && !authority.is_default()),
{
    let mint = anchor_lang::prelude::Pubkey::new_from_array(mint.bytes);
    let authority = anchor_lang::prelude::Pubkey::new_from_array(authority.bytes);
    match metadata_pointer::instruction::initialize(
        &spl_token_2022::id(),
        &mint,
        Some(authority),
        Some(mint),
    ) {
        Ok(_) => Ok(()),
        Err(e) => Err(e),
    }
}

/// Plans the making of an asset whose mint account takes `mint_len` bytes,
/// where that is known.
///
/// The plan is refused with `InvalidMintAccountSpace` where the size of the
/// mint account is not known, or where the bytes to exempt from rent are more
/// than a `usize` holds.
pub fn plan_mint(mint_len: Option<usize>, is_soulbound: bool, agreements: usize) -> (r: Result<
    MintPlan,
    ProgramErrorCode,
>)
    ensures
        match r {
            Ok(plan) => {
                &&& mint_len is Some
                &&& mint_rent_space(mint_len.unwrap() as nat, agreements as nat) <= usize::MAX
                &&& plan.space == mint_len.unwrap()
                &&& is_mint_plan(plan, is_soulbound, agreements as nat)
            },
            Err(e) => {
                &&& e == ProgramErrorCode::InvalidMintAccountSpace
                &&& mint_len is Some ==> mint_rent_space(
                    mint_len.unwrap() as nat,
                    agreements as nat,
                ) > usize::MAX
            },
        },
{
    let space: usize = match mint_len {
        Some(space) => space,
        None => { return Err(ProgramErrorCode::InvalidMintAccountSpace); },
    };
    assert(agreements * 200 > usize::MAX ==> mint_rent_space(space as nat, agreements as nat)
        > usize::MAX) by (nonlinear_arith)
        requires
            mint_rent_space(space as nat, agreements as nat) == space + 250 + agreements * 200,
            space >= 0,
    ;
    let meta_data_space = agreements.checked_mul(METADATA_AGREEMENT_SPACE).ok_or(
        ProgramErrorCode::InvalidMintAccountSpace,
    )?.checked_add(METADATA_BASE_SPACE).ok_or(ProgramErrorCode::InvalidMintAccountSpace)?;
    let rent_space = space.checked_add(meta_data_space).ok_or(
        ProgramErrorCode::InvalidMintAccountSpace,
    )?;

    let mut steps: Vec<MintStep> = Vec::new();
    steps.push(MintStep::CreateAccount);
    steps.push(MintStep::Assign);
    steps.push(MintStep::InitializeMetadataPointer);
    if is_soulbound {
        steps.push(MintStep::InitializeNonTransferable);
    }
    steps.push(MintStep::InitializeMint { decimals: ASSET_DECIMALS });
    steps.push(MintStep::InitializeMetadata);
    let ghost head = steps@;
    let mut i: usize = 0;
    while i < agreements
        invariant
            i <= agreements,
            steps@ == head + agreement_steps(i as nat),
        decreases agreements - i,
    {
        steps.push(MintStep::UpdateField(i));
        assert(steps@ =~= head + agreement_steps((i + 1) as nat));
        i += 1;
    }
    steps.push(MintStep::CreateTokenAccount);
    steps.push(MintStep::MintTo { amount: ASSET_SUPPLY });
    steps.push(MintStep::RevokeMintAuthority);
    assert(steps@ =~= mint_steps(is_soulbound, agreements as nat));
    Ok(MintPlan { space: space as u64, rent_space, steps })
}

/// Why an asset with `agreements` agreements cannot be planned, if it cannot:
/// the bytes to exempt from rent are more than a `usize` holds; or else the
/// asset's address or that of the configuration record is the one of all
/// zeros, at which no metadata pointer can be set up.
pub open spec fn mint_error(ctx: ListService, agreements: nat) -> Option<ProgramErrorCode> {
    if mint_rent_space(MINT_ACCOUNT_LEN as nat, agreements) > usize::MAX {
        Some(ProgramErrorCode::InvalidMintAccountSpace)
    } else if ctx.nft_mint.is_default() || ctx.config.is_default() {
        Some(ProgramErrorCode::CantInitializeMetadataPointer)
    } else {
        None
    }
}

/// Plans the making of the asset of a service with these agreements.
///
/// The plan is the one for a mint account with a metadata pointer, the flag
/// and the number of agreements. It is refused only for the reason that
/// `mint_error` gives.
pub fn initialize_mint_and_metadata(
    ctx: &ListService,
    is_soulbound: bool,
    agreements: &Vec<ServiceAgreement>,
) -> (r: Result<MintPlan, ProgramErrorCode>)
    ensures
        match r {
            Ok(plan) => {
                &&& mint_error(*ctx, agreements@.len()) is None
                &&& plan.space == MINT_ACCOUNT_LEN
                &&& is_mint_plan(plan, is_soulbound, agreements@.len())
            },
            Err(e) => mint_error(*ctx, agreements@.len()) == Some(e),
        },
{
    let plan = plan_mint(mint_account_len().ok(), is_soulbound, agreements.len())?;
    match metadata_pointer_instruction(&ctx.nft_mint, &ctx.config) {
        Ok(()) => Ok(plan),
        Err(_) => Err(ProgramErrorCode::CantInitializeMetadataPointer),
    }
}

/// Why a listing is refused, if it is: the asset has a service record
/// already; or else its making cannot be planned, for the planner's reason.
pub open spec fn create_service_error(ctx: ListService, agreements: nat) -> Option<
    ProgramErrorCode,
> {
    if ctx.service_account is Some {
        Some(ProgramErrorCode::AlreadyInitialized)
    } else {
        mint_error(ctx, agreements)
    }
}

/// Lists a service: the vendor becomes both its original and its current
/// vendor, and the plan for the making of its asset comes back. No lamports
/// move.
///
/// An asset that has a service record is not listed again: the call is
/// refused with `AlreadyInitialized`. Where the asset cannot be planned, the
/// listing is refused for the planner's reason. A refused listing changes
/// nothing.
pub fn create_service(
    ctx: &mut ListService,
    is_soulbound: bool,
    agreements: Vec<ServiceAgreement>,
    price: u64,
) -> (r: Result<MintPlan, ProgramErrorCode>)
    ensures
        match r {
            Ok(plan) => {
                &&& create_service_error(*old(ctx), agreements@.len()) is None
                &&& plan.space == MINT_ACCOUNT_LEN
                &&& is_mint_plan(plan, is_soulbound, agreements@.len())
                &&& *final(ctx) == (ListService {
                    service_account: Some(
                        ServiceAccount {
                            bump: old(ctx).bump,
                            is_soulbound,
                            original_vendor: old(ctx).vendor,
                            current_vendor: old(ctx).vendor,
                            nft_mint: old(ctx).nft_mint,
                            price,
                            agreements,
                        },
                    ),
                    ..*old(ctx)
                })
            },
            Err(e) => {
                &&& create_service_error(*old(ctx), agreements@.len()) == Some(e)
                &&& *final(ctx) == *old(ctx)
            },
        },
{
    if ctx.service_account.is_some() {
        return Err(ProgramErrorCode::AlreadyInitialized);
    }
    let plan = initialize_mint_and_metadata(ctx, is_soulbound, &agreements)?;
    ctx.service_account = Some(
        ServiceAccount {
            bump: ctx.bump,
            is_soulbound,
            original_vendor: ctx.vendor,
            current_vendor: ctx.vendor,
            nft_mint: ctx.nft_mint,
            price,
            agreements,
        },
    );
    Ok(plan)
}

} // verus!
