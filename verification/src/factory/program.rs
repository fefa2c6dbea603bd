//! The factory program's entry points: each checks the invocation context,
//! then runs its instruction.
use vstd::prelude::*;
use crate::context::Context;
use crate::error::{ErrorCode, InstructionError, refusal_of};
use crate::factory::chain_event::choice::ChooseEvent;
use crate::factory::chain_event::event::EventEvent;
use crate::factory::event::balance::BalanceChangeEvent;
use crate::factory::instructions::change_vision_mining_admin::ChangeVisionMiningAdmin;
use crate::factory::instructions::choice::{Choose, ChooseParams};
use crate::factory::instructions::claim::{Claim, ClaimOutcome, ClaimParams};
use crate::factory::instructions::create_event_config::{CreateEventConfig, CreateEventConfigParams};
use crate::factory::instructions::create_event_market::{CreateEventMarket, CreateEventMarketParams};
use crate::factory::instructions::create_event_sbt::{CreateEventSBT, CreateEventSBTParams};
use crate::factory::instructions::create_sbt::{CreateSBT, CreateSBTParams, SbtCreation};
use crate::factory::instructions::initial_global_config::InitializeGlobalConfig;
use crate::factory::instructions::initialize_collection::{CollectionCreation, InitializeCollection, InitializeCollectionParams};
use crate::factory::instructions::initialize_mint::{InitializeMint, InitializeMintParams};
use crate::factory::instructions::mint_sbt::{MintSBT, SbtMinting};
use crate::factory::instructions::mint_tokens::{MintTokens, MintTokensParams};
use crate::factory::instructions::resolvers::fear_and_greed_event_market_resolve::{
    FearAndGreedEventMarketResolve, FearAndGreedEventMarketResolveParams};
use crate::factory::instructions::toggle_event_market::{ToggleEventMarket, ToggleEventMarketParams};
use crate::factory::instructions::vision_mining_claim::{VisionMiningClaim, VisionMiningClaimParams};
use crate::factory::instructions::withdraw::{Withdraw, WithdrawParams};
use crate::factory::metaplex::CreateMetadata;
use crate::factory::token::{MintTo, TransferChecked};
use crate::pubkey::{factory_id, factory_id_spec};

verus! {

/// The most fungible tokens that can ever be minted: a billion tokens of
/// nine decimals.
pub const FT_MAX_SUPPLY: u64 = 1_000_000_000 * 1_000_000_000;

/// The refusal, if any, of an invocation: it must be addressed to the
/// factory program and pass no accounts beyond the named ones.
pub open spec fn context_refusal<T, B>(ctx: Context<T, B>) -> Option<ErrorCode> {
    if ctx.program_id@ != factory_id_spec() {
        Some(ErrorCode::InvalidProgramId)
    } else if ctx.remaining_accounts.len() != 0 {
        Some(ErrorCode::UnexpectedAccount)
    } else {
        None
    }
}

/// Checks that the invocation is addressed to the factory program and passes
/// no extra accounts.
pub fn check_context<T, B>(ctx: &Context<T, B>) -> (r: Result<(), ErrorCode>)
    ensures
        match context_refusal(*ctx) {
            Some(c) => r == Err::<(), ErrorCode>(c),
            None => r is Ok,
        },
{
    if !ctx.program_id.key_eq(&factory_id()) {
        return Err(ErrorCode::InvalidProgramId);
    }
    if ctx.remaining_accounts.len() != 0 {
        return Err(ErrorCode::UnexpectedAccount);
    }
    Ok(())
}

/// The bump of a new event configuration.
#[derive(Clone, Copy, Debug, PartialEq, Eq)]
pub struct CreateEventConfigBumps {
    pub event_config: u8,
}

/// The bump of a new market.
#[derive(Clone, Copy, Debug, PartialEq, Eq)]
pub struct CreateEventMarketBumps {
    pub event_market_account: u8,
}

/// The bumps of an option's SBT mint and of the collection authority.
#[derive(Clone, Copy, Debug, PartialEq, Eq)]
pub struct CreateEventSBTBumps {
    pub mint: u8,
    pub authority: u8,
}

/// The bump of a user's main SBT mint.
#[derive(Clone, Copy, Debug, PartialEq, Eq)]
pub struct CreateSBTBumps {
    pub mint: u8,
}

/// The bump of a user's edition mint of the claimed option.
#[derive(Clone, Copy, Debug, PartialEq, Eq)]
pub struct ClaimBumps {
    pub event_sbt_edition_mint: u8,
}

/// Creates the global configuration. The invocation must be addressed to the factory and pass no
/// extra accounts; then the instruction runs.
pub fn initialize_global_config(ctx: &mut Context<InitializeGlobalConfig, ()>) -> (r: Result<(), ErrorCode>)
    ensures
        match context_refusal(*old(ctx)) {
            Some(c) => r == Err::<(), ErrorCode>(c) && *final(ctx) == *old(ctx),
            None => *final(ctx) == (Context { accounts: final(ctx).accounts, ..*old(ctx) }) && InitializeGlobalConfig::outcome(old(ctx).accounts, final(ctx).accounts, r),
        },
{
    match check_context(ctx) {
        Ok(()) => {},
        Err(c) => return Err(c),
    }
    ctx.accounts.process()
}

/// Replaces the vision mining admin. The invocation must be addressed to the factory and pass no
/// extra accounts; then the instruction runs.
pub fn change_vision_mining_admin(ctx: &mut Context<ChangeVisionMiningAdmin, ()>) -> (r: Result<(), ErrorCode>)
    ensures
        match context_refusal(*old(ctx)) {
            Some(c) => r == Err::<(), ErrorCode>(c) && *final(ctx) == *old(ctx),
            None => *final(ctx) == (Context { accounts: final(ctx).accounts, ..*old(ctx) }) && ChangeVisionMiningAdmin::outcome(old(ctx).accounts, final(ctx).accounts, r),
        },
{
    match check_context(ctx) {
        Ok(()) => {},
        Err(c) => return Err(c),
    }
    ctx.accounts.process()
}

/// Creates the fungible token's mint configuration and metadata. The invocation must be addressed to the factory and pass no
/// extra accounts; then the instruction runs.
pub fn initialize_mint(ctx: &mut Context<InitializeMint, ()>, params: InitializeMintParams) -> (r: Result<CreateMetadata, ErrorCode>)
    ensures
        match context_refusal(*old(ctx)) {
            Some(c) => r == Err::<CreateMetadata, ErrorCode>(c) && *final(ctx) == *old(ctx),
            None => *final(ctx) == (Context { accounts: final(ctx).accounts, ..*old(ctx) }) && InitializeMint::outcome(old(ctx).accounts, final(ctx).accounts, params, r),
        },
{
    match check_context(ctx) {
        Ok(()) => {},
        Err(c) => return Err(c),
    }
    ctx.accounts.process(params)
}

/// Mints fungible tokens to a user. The invocation must be addressed to the factory and pass no
/// extra accounts; then the instruction runs.
pub fn mint_tokens(ctx: &Context<MintTokens, ()>, params: MintTokensParams) -> (r: Result<(MintTo, BalanceChangeEvent), ErrorCode>)
    ensures
        match context_refusal(*ctx) {
            Some(c) => r == Err::<(MintTo, BalanceChangeEvent), ErrorCode>(c),
            None => MintTokens::outcome(ctx.accounts, params, r),
        },
{
    match check_context(ctx) {
        Ok(()) => {},
        Err(c) => return Err(c),
    }
    ctx.accounts.process(params)
}

/// Creates the SBT collection. The invocation must be addressed to the factory and pass no
/// extra accounts; then the instruction runs.
pub fn initialize_collection(ctx: &Context<InitializeCollection, ()>, params: InitializeCollectionParams) -> (r: Result<CollectionCreation, ErrorCode>)
    ensures
        match context_refusal(*ctx) {
            Some(c) => r == Err::<CollectionCreation, ErrorCode>(c),
            None => InitializeCollection::outcome(ctx.accounts, params, r),
        },
{
    match check_context(ctx) {
        Ok(()) => {},
        Err(c) => return Err(c),
    }
    ctx.accounts.process(params)
}

/// Pays out a vision mining reward. The invocation must be addressed to the factory and pass no
/// extra accounts; then the instruction runs.
pub fn vision_mining_claim(ctx: &Context<VisionMiningClaim, ()>, params: VisionMiningClaimParams) -> (r: Result<(TransferChecked, BalanceChangeEvent), InstructionError>)
    ensures
        match context_refusal(*ctx) {
            Some(c) => r == Err::<(TransferChecked, BalanceChangeEvent), InstructionError>(InstructionError::Code(c)),
            None => (r != Err::<(TransferChecked, BalanceChangeEvent), InstructionError>(InstructionError::ClockUnavailable) ==>
                    exists|now: i64| VisionMiningClaim::outcome(ctx.accounts, params, now, refusal_of(r))),
        },
{
    match check_context(ctx) {
        Ok(()) => {},
        Err(c) => return Err(InstructionError::Code(c)),
    }
    ctx.accounts.process(params)
}

/// Creates an event configuration. The invocation must be addressed to the factory and pass no
/// extra accounts; then the instruction runs.
pub fn create_event_config(ctx: &mut Context<CreateEventConfig, CreateEventConfigBumps>, params: CreateEventConfigParams) -> (r: Result<EventEvent, ErrorCode>)
    ensures
        match context_refusal(*old(ctx)) {
            Some(c) => r == Err::<EventEvent, ErrorCode>(c) && *final(ctx) == *old(ctx),
            None => *final(ctx) == (Context { accounts: final(ctx).accounts, ..*old(ctx) }) && CreateEventConfig::outcome(old(ctx).accounts, final(ctx).accounts, params, old(ctx).bumps.event_config, r),
        },
{
    match check_context(ctx) {
        Ok(()) => {},
        Err(c) => return Err(c),
    }
    let bump = ctx.bumps.event_config;
    ctx.accounts.process(params, bump)
}

/// Creates a market of an event. The invocation must be addressed to the factory and pass no
/// extra accounts; then the instruction runs.
pub fn create_event_market(ctx: &mut Context<CreateEventMarket, CreateEventMarketBumps>, params: CreateEventMarketParams) -> (r: Result<EventEvent, InstructionError>)
    ensures
        match context_refusal(*old(ctx)) {
            Some(c) => r == Err::<EventEvent, InstructionError>(InstructionError::Code(c)) && *final(ctx) == *old(ctx),
            None => *final(ctx) == (Context { accounts: final(ctx).accounts, ..*old(ctx) })
                && (r == Err::<EventEvent, InstructionError>(InstructionError::ClockUnavailable) ==> *final(ctx) == *old(ctx))
                && (r != Err::<EventEvent, InstructionError>(InstructionError::ClockUnavailable) ==>
                    exists|slot: u64, now: i64| CreateEventMarket::outcome(old(ctx).accounts, final(ctx).accounts, params, old(ctx).bumps.event_market_account, slot, now, refusal_of(r))),
        },
{
    match check_context(ctx) {
        Ok(()) => {},
        Err(c) => return Err(InstructionError::Code(c)),
    }
    let bump = ctx.bumps.event_market_account;
    ctx.accounts.process(params, bump)
}

/// Opens or closes a market and records its opening value. The invocation must be addressed to the factory and pass no
/// extra accounts; then the instruction runs.
pub fn toggle_event_market(ctx: &mut Context<ToggleEventMarket, ()>, params: ToggleEventMarketParams) -> (r: Result<Option<EventEvent>, ErrorCode>)
    ensures
        match context_refusal(*old(ctx)) {
            Some(c) => r == Err::<Option<EventEvent>, ErrorCode>(c) && *final(ctx) == *old(ctx),
            None => *final(ctx) == (Context { accounts: final(ctx).accounts, ..*old(ctx) }) && ToggleEventMarket::outcome(old(ctx).accounts, final(ctx).accounts, params, r),
        },
{
    match check_context(ctx) {
        Ok(()) => {},
        Err(c) => return Err(c),
    }
    ctx.accounts.process(params)
}

/// Creates the master edition SBT of an event option. The invocation must be addressed to the factory and pass no
/// extra accounts; then the instruction runs.
pub fn create_event_sbt(ctx: &Context<CreateEventSBT, CreateEventSBTBumps>, params: CreateEventSBTParams) -> (r: Result<SbtCreation, ErrorCode>)
    ensures
        match context_refusal(*ctx) {
            Some(c) => r == Err::<SbtCreation, ErrorCode>(c),
            None => CreateEventSBT::outcome(ctx.accounts, params, ctx.bumps.mint, ctx.bumps.authority, r),
        },
{
    match check_context(ctx) {
        Ok(()) => {},
        Err(c) => return Err(c),
    }
    let bump = ctx.bumps.mint;
    let authority_bump = ctx.bumps.authority;
    ctx.accounts.process(params, bump, authority_bump)
}

/// Resolves a market. The invocation must be addressed to the factory and pass no
/// extra accounts; then the instruction runs.
pub fn resolve(ctx: &mut Context<FearAndGreedEventMarketResolve, ()>, params: FearAndGreedEventMarketResolveParams) -> (r: Result<EventEvent, InstructionError>)
    ensures
        match context_refusal(*old(ctx)) {
            Some(c) => r == Err::<EventEvent, InstructionError>(InstructionError::Code(c)) && *final(ctx) == *old(ctx),
            None => *final(ctx) == (Context { accounts: final(ctx).accounts, ..*old(ctx) })
                && (r == Err::<EventEvent, InstructionError>(InstructionError::ClockUnavailable) ==> *final(ctx) == *old(ctx))
                && (r != Err::<EventEvent, InstructionError>(InstructionError::ClockUnavailable) ==>
                    exists|now: i64| FearAndGreedEventMarketResolve::outcome(old(ctx).accounts, final(ctx).accounts, params, now, refusal_of(r))),
        },
{
    match check_context(ctx) {
        Ok(()) => {},
        Err(c) => return Err(InstructionError::Code(c)),
    }
    ctx.accounts.process(params)
}

/// Creates a user's main SBT. The invocation must be addressed to the factory and pass no
/// extra accounts; then the instruction runs.
pub fn create_sbt(ctx: &Context<CreateSBT, CreateSBTBumps>, params: CreateSBTParams) -> (r: Result<SbtCreation, ErrorCode>)
    ensures
        match context_refusal(*ctx) {
            Some(c) => r == Err::<SbtCreation, ErrorCode>(c),
            None => CreateSBT::outcome(ctx.accounts, params, ctx.bumps.mint, r),
        },
{
    match check_context(ctx) {
        Ok(()) => {},
        Err(c) => return Err(c),
    }
    let bump = ctx.bumps.mint;
    ctx.accounts.process(params, bump)
}

/// Mints a user's main SBT. The invocation must be addressed to the factory and pass no
/// extra accounts; then the instruction runs.
pub fn mint_sbt(ctx: &mut Context<MintSBT, ()>) -> (r: Result<SbtMinting, ErrorCode>)
    ensures
        match context_refusal(*old(ctx)) {
            Some(c) => r == Err::<SbtMinting, ErrorCode>(c) && *final(ctx) == *old(ctx),
            None => *final(ctx) == (Context { accounts: final(ctx).accounts, ..*old(ctx) })
                && MintSBT::outcome(old(ctx).accounts, final(ctx).accounts, r),
        },
{
    match check_context(ctx) {
        Ok(()) => {},
        Err(c) => return Err(c),
    }
    ctx.accounts.process()
}

/// Stakes a user's main SBT on an option of a market. The invocation must be addressed to the factory and pass no
/// extra accounts; then the instruction runs.
pub fn choose_option(ctx: &mut Context<Choose, ()>, params: ChooseParams) -> (r: Result<ChooseEvent, InstructionError>)
    ensures
        match context_refusal(*old(ctx)) {
            Some(c) => r == Err::<ChooseEvent, InstructionError>(InstructionError::Code(c)) && *final(ctx) == *old(ctx),
            None => *final(ctx) == (Context { accounts: final(ctx).accounts, ..*old(ctx) })
                && (r == Err::<ChooseEvent, InstructionError>(InstructionError::ClockUnavailable) ==> *final(ctx) == *old(ctx))
                && (r != Err::<ChooseEvent, InstructionError>(InstructionError::ClockUnavailable) ==>
                    exists|now: i64| Choose::outcome(old(ctx).accounts, final(ctx).accounts, params, now, refusal_of(r))),
        },
{
    match check_context(ctx) {
        Ok(()) => {},
        Err(c) => return Err(InstructionError::Code(c)),
    }
    ctx.accounts.process(params)
}

/// Withdraws a user's SBT from a market. The invocation must be addressed to the factory and pass no
/// extra accounts; then the instruction runs.
pub fn withdraw(ctx: &mut Context<Withdraw, ()>, params: WithdrawParams) -> (r: Result<ChooseEvent, ErrorCode>)
    ensures
        match context_refusal(*old(ctx)) {
            Some(c) => r == Err::<ChooseEvent, ErrorCode>(c) && *final(ctx) == *old(ctx),
            None => *final(ctx) == (Context { accounts: final(ctx).accounts, ..*old(ctx) }) && Withdraw::outcome(old(ctx).accounts, final(ctx).accounts, params, r),
        },
{
    match check_context(ctx) {
        Ok(()) => {},
        Err(c) => return Err(c),
    }
    ctx.accounts.process(params)
}

/// Claims the outcome of a resolved market. The invocation must be addressed to the factory and pass no
/// extra accounts; then the instruction runs.
pub fn claim(ctx: &mut Context<Claim, ClaimBumps>, params: ClaimParams) -> (r: Result<ClaimOutcome, ErrorCode>)
    ensures
        match context_refusal(*old(ctx)) {
            Some(c) => r == Err::<ClaimOutcome, ErrorCode>(c) && *final(ctx) == *old(ctx),
            None => *final(ctx) == (Context { accounts: final(ctx).accounts, ..*old(ctx) }) && Claim::outcome(old(ctx).accounts, final(ctx).accounts, params, old(ctx).bumps.event_sbt_edition_mint, r),
        },
{
    match check_context(ctx) {
        Ok(()) => {},
        Err(c) => return Err(c),
    }
    let bump = ctx.bumps.event_sbt_edition_mint;
    ctx.accounts.process(params, bump)
}

} // verus!
