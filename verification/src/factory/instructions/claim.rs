//! Claiming the outcome of a resolved market: the SBT is freed, and a
//! winner receives the prize and, the first time, an edition of the
//! option's event SBT.
use vstd::prelude::*;
use crate::context::Account;
use crate::error::ErrorCode;
use crate::factory::chain_event::sbt::{SBTMintEvent, SBTMintEventType};
use crate::factory::instructions::create_sbt::sbt_mint_space;
use crate::factory::metaplex::{NewMint, NewMintView};
use crate::factory::event::balance::{BalanceChangeEvent, BalanceChangeEventType, U64ValueChange};
use crate::factory::state::event_config::EventConfig;
use crate::factory::state::event_market::EventMarket;
use crate::factory::state::global_config::{GlobalConfig, expect_global_config, is_global_config_key};
use crate::factory::state::marker::{Marker, marker_address};
use crate::factory::state::mint_config::{MintConfig, config_scoped_seeds, metadata_address, master_edition_address, mint_authority_address};
use crate::factory::state::user_position::{UserPosition, user_position_seeds};
use crate::factory::utils::{ata_address, get_ata, is_derived};
use crate::factory::token::{Mint, TokenAccount, TransferChecked, TransferCheckedView};
use crate::pubkey::{Pubkey, find_program_address, factory_id, factory_id_spec, program_address, address_of, seeds_view};
use crate::seeds::{sbt_mint_seed, sbt_mint_seed_bytes, ft_event_mining_pda_seed, ft_event_mining_pda_seed_bytes,
    authority_seed, authority_seed_bytes, byte_seed, mint_seed};

verus! {

/// The option the SBT was staked on, and the user's main SBT mint.
#[derive(Clone, Copy, Debug, PartialEq, Eq)]
pub struct ClaimParams {
    pub indicate: u8,
    pub sbt_mint: Pubkey,
}

/// The accounts of a claim.
pub struct Claim {
    pub payer: Pubkey,
    pub global_config: Account<GlobalConfig>,
    pub event_config: Account<EventConfig>,
    pub event_market: Account<EventMarket>,
    pub marker: Account<Marker>,
    pub user_position: Account<UserPosition>,
    pub mint: Account<Mint>,
    pub token_account: Account<TokenAccount>,
    pub event_mining_pda: Pubkey,
    pub event_mining_token_account: Account<TokenAccount>,
    pub event_sbt_edition_mint: Pubkey,
    /// The length of the edition mint account's data: zero while it does
    /// not exist.
    pub event_sbt_edition_mint_data_len: usize,
    pub event_sbt_edition_token_account: Pubkey,
    pub event_sbt_edition_metadata: Pubkey,
    pub event_sbt_edition: Pubkey,
    pub event_sbt_edition_pda: Pubkey,
    pub authority: Pubkey,
    pub collection_mint: Account<Mint>,
    pub event_sbt_master_edition_mint: Account<Mint>,
    pub event_sbt_master_edition_token_account: Account<TokenAccount>,
    pub event_sbt_master_edition_metadata: Pubkey,
    pub event_sbt_master_edition: Pubkey,
    pub token_program: Pubkey,
}

/// Printing edition 1 of the option's event SBT to the user: the new edition
/// mint, a 170-byte non-transferable mint with no decimals whose mint and
/// freeze authority is the collection authority (created with the edition
/// mint's own seeds), and the print, signed for by `authority_seeds`.
#[derive(Clone, Debug, PartialEq, Eq)]
pub struct PrintEdition {
    pub edition_mint: Pubkey,
    pub new_mint: NewMint,
    pub edition_metadata: Pubkey,
    pub edition: Pubkey,
    pub edition_marker_pda: Pubkey,
    pub edition_token_account: Pubkey,
    pub owner: Pubkey,
    pub authority: Pubkey,
    pub authority_seeds: Vec<Vec<u8>>,
    pub master_edition: Pubkey,
    pub master_token_account: Pubkey,
    pub master_metadata: Pubkey,
    pub edition_number: u64,
}

/// The content of a print, its seeds as byte sequences.
pub struct PrintEditionView {
    pub edition_mint: Pubkey,
    pub new_mint: NewMintView,
    pub edition_metadata: Pubkey,
    pub edition: Pubkey,
    pub edition_marker_pda: Pubkey,
    pub edition_token_account: Pubkey,
    pub owner: Pubkey,
    pub authority: Pubkey,
    pub authority_seeds: Seq<Seq<u8>>,
    pub master_edition: Pubkey,
    pub master_token_account: Pubkey,
    pub master_metadata: Pubkey,
    pub edition_number: u64,
}

impl View for PrintEdition {
    type V = PrintEditionView;

    open spec fn view(&self) -> PrintEditionView {
        PrintEditionView {
            edition_mint: self.edition_mint,
            new_mint: self.new_mint@,
            edition_metadata: self.edition_metadata,
            edition: self.edition,
            edition_marker_pda: self.edition_marker_pda,
            edition_token_account: self.edition_token_account,
            owner: self.owner,
            authority: self.authority,
            authority_seeds: seeds_view(self.authority_seeds@),
            master_edition: self.master_edition,
            master_token_account: self.master_token_account,
            master_metadata: self.master_metadata,
            edition_number: self.edition_number,
        }
    }
}

/// What a claim asks the token programs to do, with the events to emit: the
/// prize transfer of a winner, and the print of a winner who has no edition
/// yet.
#[derive(Clone, Debug, PartialEq, Eq)]
pub struct ClaimOutcome {
    pub transfer: Option<(TransferChecked, BalanceChangeEvent)>,
    pub print: Option<(PrintEdition, SBTMintEvent)>,
}

/// The content of a claim's outcome.
pub struct ClaimOutcomeView {
    pub transfer: Option<(TransferCheckedView, BalanceChangeEvent)>,
    pub print: Option<(PrintEditionView, SBTMintEvent)>,
}

impl View for ClaimOutcome {
    type V = ClaimOutcomeView;

    open spec fn view(&self) -> ClaimOutcomeView {
        ClaimOutcomeView {
            transfer: match self.transfer {
                Some((t, e)) => Some((t@, e)),
                None => None,
            },
            print: match self.print {
                Some((p, e)) => Some((p@, e)),
                None => None,
            },
        }
    }
}

/// The address of the main SBT mint of `user`.
pub open spec fn sbt_mint_address(user: Seq<u8>) -> Option<(Seq<u8>, u8)> {
    program_address(seq![sbt_mint_seed(), user], factory_id_spec())
}

/// The address of the edition mint of option `indicate` of an event
/// configuration, printed to `user`.
pub open spec fn edition_mint_address(event_config: Seq<u8>, indicate: u8, user: Seq<u8>) -> Option<(Seq<u8>, u8)> {
    program_address(seq![sbt_mint_seed(), event_config, seq![indicate], user], factory_id_spec())
}

/// The address of the master edition mint of option `indicate` of an event
/// configuration.
pub open spec fn master_mint_address(event_config: Seq<u8>, indicate: u8) -> Option<(Seq<u8>, u8)> {
    program_address(seq![sbt_mint_seed(), event_config, seq![indicate]], factory_id_spec())
}

/// Whether the claim's accounts are at their derived addresses: the global
/// configuration, the marker
/// of the user's SBT, the user's position in the market, the fungible mint,
/// the user's and the event mining authority's token accounts of it (the
/// authority being the configured one), the user's edition mint of the
/// option with its token account and metadata, and the option's master
/// edition mint with its master edition.
pub open spec fn claim_addresses_hold(c: Claim, params: ClaimParams) -> bool {
    &&& is_global_config_key(c.global_config.key)
    &&& address_of(marker_address(c.payer@, params.sbt_mint@)) == Some(c.marker.key@)
    &&& address_of(program_address(user_position_seeds(c.event_market.key@, c.payer@, None), factory_id_spec()))
        == Some(c.user_position.key@)
    &&& address_of(program_address(config_scoped_seeds(mint_seed(), None), factory_id_spec())) == Some(c.mint.key@)
    &&& ata_address(c.payer@, c.mint.key@, c.token_program@) == Some(c.token_account.key@)
    &&& c.event_mining_pda == c.global_config.data.event_mining_pda
    &&& ata_address(c.event_mining_pda@, c.mint.key@, c.token_program@) == Some(c.event_mining_token_account.key@)
    &&& address_of(edition_mint_address(c.event_config.key@, params.indicate, c.payer@)) == Some(c.event_sbt_edition_mint@)
    &&& ata_address(c.payer@, c.event_sbt_edition_mint@, c.token_program@) == Some(c.event_sbt_edition_token_account@)
    &&& address_of(metadata_address(c.event_sbt_edition_mint@)) == Some(c.event_sbt_edition_metadata@)
    &&& address_of(master_mint_address(c.event_config.key@, params.indicate)) == Some(c.event_sbt_master_edition_mint.key@)
    &&& address_of(master_edition_address(c.event_sbt_master_edition_mint.key@)) == Some(c.event_sbt_master_edition@)
}

/// The prize transfer of a winning claim.
pub open spec fn prize_transfer(c: Claim) -> (TransferCheckedView, BalanceChangeEvent) {
    let prize = c.event_market.data.prize;
    let from = c.event_mining_token_account;
    let to = c.token_account;
    (
        TransferCheckedView {
            from: from.key,
            mint: c.mint.key,
            to: to.key,
            authority: c.event_mining_pda,
            amount: prize,
            decimals: c.mint.data.decimals,
            signer_seeds: seq![ft_event_mining_pda_seed(), seq![c.global_config.data.event_mining_bump]],
        },
        BalanceChangeEvent {
            event_type: BalanceChangeEventType::Transfer,
            mint: c.mint.key,
            from_token_account: Some(from.key),
            from_change: Some(U64ValueChange { old: from.data.amount, new: (from.data.amount - prize) as u64 }),
            to_token_account: Some(to.key),
            to_change: Some(U64ValueChange { old: to.data.amount, new: (to.data.amount + prize) as u64 }),
        },
    )
}

/// The print of a winning claim whose edition mint does not exist yet.
pub open spec fn edition_print(c: Claim, indicate: u8, bump: u8, authority_bump: u8) -> (PrintEditionView, SBTMintEvent) {
    (
        PrintEditionView {
            edition_mint: c.event_sbt_edition_mint,
            new_mint: NewMintView {
                mint: c.event_sbt_edition_mint,
                payer: c.payer,
                space: sbt_mint_space(),
                mint_authority: c.authority,
                freeze_authority: Some(c.authority),
                decimals: 0,
                non_transferable: true,
                signer_seeds: seq![sbt_mint_seed(), c.event_config.key@, seq![indicate], c.payer@, seq![bump]],
            },
            edition_metadata: c.event_sbt_edition_metadata,
            edition: c.event_sbt_edition,
            edition_marker_pda: c.event_sbt_edition_pda,
            edition_token_account: c.event_sbt_edition_token_account,
            owner: c.payer,
            authority: c.authority,
            authority_seeds: seq![authority_seed(), c.collection_mint.key@, seq![authority_bump]],
            master_edition: c.event_sbt_master_edition,
            master_token_account: c.event_sbt_master_edition_token_account.key,
            master_metadata: c.event_sbt_master_edition_metadata,
            edition_number: 1,
        },
        SBTMintEvent { event_type: SBTMintEventType::PrintSBT, mint_key: c.event_sbt_edition_mint, user_key: c.payer },
    )
}

/// What a claim yields: the freed marker, the closed position and what the
/// token programs are asked to do; or the refusal.
///
/// The configuration must be the market's, the market resolved, the marker
/// staked on the claimed option, and the accounts at their derived
/// addresses (`claim_addresses_hold`); the SBT must be the user's main SBT
/// and the user must have a position. A loser gets nothing more. A winner is
/// transferred the prize from the event mining account, which must hold it;
/// the user's balance must not overflow. A winner without an edition mint
/// is printed one, signed for by the collection authority, which must be the
/// derived one.
pub open spec fn claim_spec(c: Claim, params: ClaimParams, bump: u8) -> Result<(Marker, UserPosition, ClaimOutcomeView), ErrorCode> {
    let m = c.event_market.data;
    if c.event_config.key != m.event_config {
        Err(ErrorCode::UnexpectedAccount)
    } else if m.result == 0 {
        Err(ErrorCode::EventIsOngoing)
    } else if c.marker.data.indicate != params.indicate {
        Err(ErrorCode::InvalidArgument)
    } else if !claim_addresses_hold(c, params) {
        Err(ErrorCode::UnexpectedAccount)
    } else if address_of(sbt_mint_address(c.payer@)) != Some(params.sbt_mint@) {
        Err(ErrorCode::InvalidArgument)
    } else if !c.user_position.data.existed {
        Err(ErrorCode::PositionNotFound)
    } else {
        let marker = Marker { indicate: 0, ..c.marker.data };
        if params.indicate != m.result {
            Ok((marker, UserPosition::vacant(), ClaimOutcomeView { transfer: None, print: None }))
        } else if c.event_mining_token_account.data.amount < m.prize {
            Err(ErrorCode::NotSufficientBalance)
        } else if c.token_account.data.amount + m.prize > u64::MAX {
            Err(ErrorCode::Overflow)
        } else if c.event_sbt_edition_mint_data_len != 0 {
            Ok((marker, UserPosition::vacant(), ClaimOutcomeView { transfer: Some(prize_transfer(c)), print: None }))
        } else if address_of(mint_authority_address(c.collection_mint.key@)) != Some(c.authority@) {
            Err(ErrorCode::UnexpectedAccount)
        } else {
            let authority_bump = mint_authority_address(c.collection_mint.key@)->Some_0.1;
            Ok((marker, UserPosition::vacant(), ClaimOutcomeView {
                transfer: Some(prize_transfer(c)),
                print: Some(edition_print(c, params.indicate, bump, authority_bump)),
            }))
        }
    }
}

fn ata_is(user: &Pubkey, mint: &Pubkey, token_program: &Pubkey, k: &Pubkey) -> (b: bool)
    ensures
        b == (ata_address(user@, mint@, token_program@) == Some(k@)),
{
    match get_ata(user, mint, token_program) {
        Some(a) => a.key_eq(k),
        None => false,
    }
}

impl Claim {
    /// Checks that the accounts are at their derived addresses.
    pub fn addresses_hold(&self, params: ClaimParams) -> (b: bool)
        ensures
            b == claim_addresses_hold(*self, params),
    {
        if expect_global_config(&self.global_config.key).is_err() {
            return false;
        }
        if !is_derived(Marker::find_marker_account(self.payer, params.sbt_mint), &self.marker.key) {
            return false;
        }
        if !is_derived(UserPosition::find_user_position_account(self.event_market.key, self.payer, None), &self.user_position.key) {
            return false;
        }
        if !is_derived(MintConfig::find_mint(None), &self.mint.key) {
            return false;
        }
        if !ata_is(&self.payer, &self.mint.key, &self.token_program, &self.token_account.key) {
            return false;
        }
        if !self.event_mining_pda.key_eq(&self.global_config.data.event_mining_pda) {
            return false;
        }
        if !ata_is(&self.event_mining_pda, &self.mint.key, &self.token_program, &self.event_mining_token_account.key) {
            return false;
        }
        let mut edition_seeds: Vec<Vec<u8>> = Vec::new();
        edition_seeds.push(sbt_mint_seed_bytes());
        edition_seeds.push(self.event_config.key.to_vec());
        edition_seeds.push(byte_seed(params.indicate));
        edition_seeds.push(self.payer.to_vec());
        assert(seeds_view(edition_seeds@) =~= seq![sbt_mint_seed(), self.event_config.key@, seq![params.indicate], self.payer@]);
        if !is_derived(find_program_address(&edition_seeds, &factory_id()), &self.event_sbt_edition_mint) {
            return false;
        }
        if !ata_is(&self.payer, &self.event_sbt_edition_mint, &self.token_program, &self.event_sbt_edition_token_account) {
            return false;
        }
        if !is_derived(MintConfig::find_metadata(self.event_sbt_edition_mint), &self.event_sbt_edition_metadata) {
            return false;
        }
        let mut master_seeds: Vec<Vec<u8>> = Vec::new();
        master_seeds.push(sbt_mint_seed_bytes());
        master_seeds.push(self.event_config.key.to_vec());
        master_seeds.push(byte_seed(params.indicate));
        assert(seeds_view(master_seeds@) =~= seq![sbt_mint_seed(), self.event_config.key@, seq![params.indicate]]);
        if !is_derived(find_program_address(&master_seeds, &factory_id()), &self.event_sbt_master_edition_mint.key) {
            return false;
        }
        is_derived(MintConfig::find_master_edition(self.event_sbt_master_edition_mint.key), &self.event_sbt_master_edition)
    }

    /// The accounts with a new marker and user position.
    pub open spec fn with_claimed(self, m: Marker, u: UserPosition) -> Claim {
        Claim {
            marker: Account { key: self.marker.key, data: m },
            user_position: Account { key: self.user_position.key, data: u },
            ..self
        }
    }

    /// Checks that `params.sbt_mint` is the user's main SBT mint and that the
    /// user has a position.
    pub fn preflight(&self, params: ClaimParams) -> (r: Result<(), ErrorCode>)
        ensures
            address_of(sbt_mint_address(self.payer@)) != Some(params.sbt_mint@) ==> r == Err::<(), ErrorCode>(ErrorCode::InvalidArgument),
            address_of(sbt_mint_address(self.payer@)) == Some(params.sbt_mint@) && !self.user_position.data.existed ==>
                r == Err::<(), ErrorCode>(ErrorCode::PositionNotFound),
            address_of(sbt_mint_address(self.payer@)) == Some(params.sbt_mint@) && self.user_position.data.existed ==> r is Ok,
    {
        let mut seeds: Vec<Vec<u8>> = Vec::new();
        seeds.push(sbt_mint_seed_bytes());
        seeds.push(self.payer.to_vec());
        assert(seeds_view(seeds@) =~= seq![sbt_mint_seed(), self.payer@]);
        let sbt_mint = find_program_address(&seeds, &factory_id());
        if !is_derived(sbt_mint, &params.sbt_mint) {
            return Err(ErrorCode::InvalidArgument);
        }
        if !self.user_position.data.existed {
            return Err(ErrorCode::PositionNotFound);
        }
        Ok(())
    }

    /// The prize transfer from the event mining account to the user.
    pub fn transfer_ctx(&self) -> (t: TransferChecked)
        ensures
            t@ == prize_transfer(*self).0,
    {
        let mut signer_seeds: Vec<Vec<u8>> = Vec::new();
        signer_seeds.push(ft_event_mining_pda_seed_bytes());
        signer_seeds.push(byte_seed(self.global_config.data.event_mining_bump));
        assert(seeds_view(signer_seeds@) =~= seq![ft_event_mining_pda_seed(), seq![self.global_config.data.event_mining_bump]]);
        TransferChecked {
            from: self.event_mining_token_account.key,
            mint: self.mint.key,
            to: self.token_account.key,
            authority: self.event_mining_pda,
            amount: self.event_market.data.prize,
            decimals: self.mint.data.decimals,
            signer_seeds,
        }
    }

    /// The accounts and result after a claim.
    pub open spec fn outcome(pre: Self, post: Self, params: ClaimParams, bump: u8, r: Result<ClaimOutcome, ErrorCode>) -> bool {
        match claim_spec(pre, params, bump) {
            Ok((m, u, o)) => (r matches Ok(out) && out@ == o) && post == pre.with_claimed(m, u),
            Err(c) => r == Err::<ClaimOutcome, ErrorCode>(c) && post == pre,
        }
    }

    /// Claims the outcome of the market for option `params.indicate`; `bump`
    /// is the bump of the user's edition mint of that option.
    pub fn process(&mut self, params: ClaimParams, bump: u8) -> (r: Result<ClaimOutcome, ErrorCode>)
        ensures
            Self::outcome(*old(self), *final(self), params, bump, r),
    {
        if !self.event_config.key.key_eq(&self.event_market.data.event_config) {
            return Err(ErrorCode::UnexpectedAccount);
        }
        if self.event_market.data.result == 0 {
            return Err(ErrorCode::EventIsOngoing);
        }
        if self.marker.data.indicate != params.indicate {
            return Err(ErrorCode::InvalidArgument);
        }
        if !self.addresses_hold(params) {
            return Err(ErrorCode::UnexpectedAccount);
        }
        let indicate = params.indicate;
        match self.preflight(params) {
            Ok(()) => {},
            Err(e) => return Err(e),
        }
        if indicate != self.event_market.data.result {
            self.marker.data.indicate = 0;
            self.user_position.data = UserPosition::new_vacant();
            return Ok(ClaimOutcome { transfer: None, print: None });
        }
        let prize = self.event_market.data.prize;
        let old_from_balance = self.event_mining_token_account.data.amount;
        let old_to_balance = self.token_account.data.amount;
        let new_from_balance = match old_from_balance.checked_sub(prize) {
            Some(b) => b,
            None => return Err(ErrorCode::NotSufficientBalance),
        };
        let new_to_balance = match old_to_balance.checked_add(prize) {
            Some(b) => b,
            None => return Err(ErrorCode::Overflow),
        };
        let transfer = self.transfer_ctx();
        let event = BalanceChangeEvent {
            event_type: BalanceChangeEventType::Transfer,
            mint: self.mint.key,
            from_token_account: Some(self.event_mining_token_account.key),
            from_change: Some(U64ValueChange { old: old_from_balance, new: new_from_balance }),
            to_token_account: Some(self.token_account.key),
            to_change: Some(U64ValueChange { old: old_to_balance, new: new_to_balance }),
        };
        let mut print: Option<(PrintEdition, SBTMintEvent)> = None;
        if self.event_sbt_edition_mint_data_len == 0 {
            let authority_found = MintConfig::find_authority(self.collection_mint.key);
            let authority_bump = match authority_found {
                Some((k, b)) => {
                    if !k.key_eq(&self.authority) {
                        return Err(ErrorCode::UnexpectedAccount);
                    }
                    b
                },
                None => return Err(ErrorCode::UnexpectedAccount),
            };
            let mut edition_mint_seeds: Vec<Vec<u8>> = Vec::new();
            edition_mint_seeds.push(sbt_mint_seed_bytes());
            edition_mint_seeds.push(self.event_config.key.to_vec());
            edition_mint_seeds.push(byte_seed(indicate));
            edition_mint_seeds.push(self.payer.to_vec());
            edition_mint_seeds.push(byte_seed(bump));
            assert(seeds_view(edition_mint_seeds@) =~= seq![sbt_mint_seed(), self.event_config.key@, seq![indicate], self.payer@, seq![bump]]);
            let mut authority_seeds: Vec<Vec<u8>> = Vec::new();
            authority_seeds.push(authority_seed_bytes());
            authority_seeds.push(self.collection_mint.key.to_vec());
            authority_seeds.push(byte_seed(authority_bump));
            assert(seeds_view(authority_seeds@) =~= seq![authority_seed(), self.collection_mint.key@, seq![authority_bump]]);
            let plan = PrintEdition {
                edition_mint: self.event_sbt_edition_mint,
                new_mint: NewMint {
                    mint: self.event_sbt_edition_mint,
                    payer: self.payer,
                    space: 170,
                    mint_authority: self.authority,
                    freeze_authority: Some(self.authority),
                    decimals: 0,
                    non_transferable: true,
                    signer_seeds: edition_mint_seeds,
                },
                edition_metadata: self.event_sbt_edition_metadata,
                edition: self.event_sbt_edition,
                edition_marker_pda: self.event_sbt_edition_pda,
                edition_token_account: self.event_sbt_edition_token_account,
                owner: self.payer,
                authority: self.authority,
                authority_seeds,
                master_edition: self.event_sbt_master_edition,
                master_token_account: self.event_sbt_master_edition_token_account.key,
                master_metadata: self.event_sbt_master_edition_metadata,
                edition_number: 1,
            };
            let minted = SBTMintEvent {
                event_type: SBTMintEventType::PrintSBT,
                mint_key: self.event_sbt_edition_mint,
                user_key: self.payer,
            };
            print = Some((plan, minted));
        }
        self.marker.data.indicate = 0;
        self.user_position.data = UserPosition::new_vacant();
        Ok(ClaimOutcome { transfer: Some((transfer, event)), print })
    }
}

/// A claim pays a winner exactly the market's prize, moved from the event
/// mining account to the user with the two balances summing as before; a
/// loser is paid nothing.
pub proof fn law_claim_pays_prize_to_winners_only(c: Claim, params: ClaimParams, bump: u8)
    requires
        claim_spec(c, params, bump) is Ok,
    ensures
        ({
            let o = claim_spec(c, params, bump)->Ok_0.2;
            &&& params.indicate != c.event_market.data.result ==> o.transfer is None && o.print is None
            &&& params.indicate == c.event_market.data.result ==> ({
                let t = o.transfer->Some_0.0;
                let ev = o.transfer->Some_0.1;
                let f = ev.from_change->Some_0;
                let g = ev.to_change->Some_0;
                &&& o.transfer is Some
                &&& ev.from_change is Some
                &&& ev.to_change is Some
                &&& t.amount == c.event_market.data.prize
                &&& t.from == c.event_mining_token_account.key
                &&& t.to == c.token_account.key
                &&& f.new + g.new == f.old + g.old
                &&& g.new == g.old + c.event_market.data.prize
            })
        }),
        claim_spec(c, params, bump)->Ok_0.0.indicate == 0,
        !claim_spec(c, params, bump)->Ok_0.1.existed,
{
}

} // verus!
