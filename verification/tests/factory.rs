use anchor_lang::prelude::Pubkey as ChainPubkey;
use monitare::account_data::AccountError;
use monitare::context::Account;
use monitare::error::{ErrorCode, InstructionError};
use monitare::factory::instructions::initialize_collection::{InitializeCollection, InitializeCollectionParams};
use monitare::factory::metaplex::PrintSupply;
use monitare::factory::chain_event::choice::ChooseEventType;
use monitare::factory::instructions::choice::{Choose, ChooseParams};
use monitare::factory::instructions::claim::{Claim, ClaimParams};
use monitare::factory::instructions::toggle_event_market::{ToggleEventMarket, ToggleEventMarketParams};
use monitare::factory::instructions::create_event_market::{CreateEventMarket, CreateEventMarketParams};
use monitare::factory::instructions::mint_tokens::{MintTokens, MintTokensParams};
use monitare::factory::program::FT_MAX_SUPPLY;
use monitare::sysvar::ClockReading;
use monitare::factory::instructions::resolvers::fear_and_greed_event_market_resolve::{
    FearAndGreedEventMarketResolve, FearAndGreedEventMarketResolveParams,
};
use monitare::factory::instructions::withdraw::{Withdraw, WithdrawParams};
use monitare::factory::state::event_config::{EventConfig, EventType};
use monitare::factory::state::event_market::EventMarket;
use monitare::factory::state::event_position::EventPosition;
use monitare::factory::state::global_config::GlobalConfig;
use monitare::factory::state::marker::Marker;
use monitare::factory::state::url::UriResource;
use monitare::factory::state::user_position::{PositionType, UserPosition};
use monitare::factory::state::mint_config::MintConfig;
use monitare::factory::token::{Mint, TokenAccount};
use monitare::factory::utils::{get_ata, get_oracle_data_account_pubkey};
use monitare::monitor::state::{OracleConfig, OracleData};
use monitare::pubkey::{factory_id, find_program_address, monitor_id, token_2022_id, Pubkey};

fn key(b: u8) -> Pubkey {
    Pubkey([b; 32])
}

fn market(event_config: Pubkey) -> EventMarket {
    EventMarket {
        event_config,
        open_raw_data: Some(50),
        open_phase: Some(1),
        option: 2,
        result: 0,
        prize: 0,
        open_slot: 10,
        open_ts: 1_000,
        close_ts: 4_600,
        expiry_ts: 4_600,
        is_opened: true,
        bump: 253,
    }
}

fn event_config(oracle_config: Pubkey, resolver: Pubkey) -> EventConfig {
    EventConfig {
        creator: key(9),
        resolver,
        event_type: EventType::RawDataEventMarket,
        oracle_config,
        option: 2,
        index: 1,
        bump: 250,
        metadata_json_url: UriResource::default(),
    }
}

fn gc_key() -> Pubkey {
    GlobalConfig::find_global_config_account().unwrap().0
}

fn user_sbt_mint() -> Pubkey {
    find_program_address(&vec![b"sbt_mint".to_vec(), key(20).0.to_vec()], &factory_id()).unwrap().0
}

fn tally_key(indicate: u8) -> Pubkey {
    EventPosition::find_event_position_account(key(32), indicate, None).unwrap().0
}

fn choose_ctx() -> Choose {
    choose_ctx_for(1)
}

fn choose_ctx_for(indicate: u8) -> Choose {
    let sbt_mint = user_sbt_mint();
    Choose {
        payer: key(20),
        sbt_mint,
        token_account: Account {
            key: get_ata(&key(20), &sbt_mint, &token_2022_id()).unwrap(),
            data: TokenAccount { mint: sbt_mint, owner: key(20), amount: 1 },
        },
        marker: Account {
            key: Marker::find_marker_account(key(20), sbt_mint).unwrap().0,
            data: Marker { indicate: 0, event_market: None, bump: 249 },
        },
        user_position: Account {
            key: UserPosition::find_user_position_account(key(32), key(20), None).unwrap().0,
            data: UserPosition::new_vacant(),
        },
        event_position: Account {
            key: tally_key(indicate),
            data: EventPosition { position_type: PositionType::EventSBTPosition, amount: 3 },
        },
        event_config: Account { key: key(30), data: event_config(key(31), key(9)) },
        event_market: Account { key: key(32), data: market(key(30)) },
    }
}

#[test]
fn choosing_stakes_the_sbt_and_counts_it() {
    let mut c = choose_ctx_for(2);
    let e = c.process_at(ChooseParams { indicate: 2 }, 2_000).unwrap();
    assert_eq!(e.event_type, ChooseEventType::Choose);
    assert_eq!((e.event_market, e.user_key, e.indicate), (key(32), key(20), 2));
    assert_eq!(c.marker.data.indicate, 2);
    assert_eq!(c.marker.data.event_market, Some(key(32)));
    assert!(c.user_position.data.existed);
    assert_eq!(c.event_position.data.amount, 4);
}

#[test]
fn choice_refusals() {
    let mut c = choose_ctx();
    let mut zero = choose_ctx_for(0);
    assert_eq!(zero.process_at(ChooseParams { indicate: 0 }, 2_000), Err(ErrorCode::IndicateToNonExistedOption));
    let mut third = choose_ctx_for(3);
    assert_eq!(third.process_at(ChooseParams { indicate: 3 }, 2_000), Err(ErrorCode::IndicateToNonExistedOption));
    assert_eq!(c.process_at(ChooseParams { indicate: 2 }, 2_000), Err(ErrorCode::UnexpectedAccount));
    assert_eq!(c.process_at(ChooseParams { indicate: 1 }, 4_600), Err(ErrorCode::EventIsOutOfTime));
    assert_eq!(c.process_at(ChooseParams { indicate: 1 }, 0), Err(ErrorCode::Overflow));
    let mut closed = choose_ctx();
    closed.event_market.data.is_opened = false;
    assert_eq!(closed.process_at(ChooseParams { indicate: 1 }, 2_000), Err(ErrorCode::EventIsNotOpen));
    let mut no_sbt = choose_ctx();
    no_sbt.token_account.data.amount = 0;
    assert_eq!(no_sbt.process_at(ChooseParams { indicate: 1 }, 2_000), Err(ErrorCode::SBTNotFound));
    let mut used = choose_ctx();
    used.marker.data.indicate = 1;
    assert_eq!(used.process_at(ChooseParams { indicate: 1 }, 2_000), Err(ErrorCode::SBTHasBeenInUse));
    let mut twice = choose_ctx();
    twice.user_position.data.existed = true;
    assert_eq!(twice.process_at(ChooseParams { indicate: 1 }, 2_000), Err(ErrorCode::AlreadyInEvent));
    let mut other = choose_ctx();
    other.event_market.data.event_config = key(99);
    assert_eq!(other.process_at(ChooseParams { indicate: 1 }, 2_000), Err(ErrorCode::UnexpectedAccount));
    let mut resolved = choose_ctx();
    resolved.event_market.data.result = 2;
    assert_eq!(resolved.process_at(ChooseParams { indicate: 1 }, 2_000), Err(ErrorCode::EventIsFinalized));
    let mut someone_elses = choose_ctx();
    someone_elses.payer = key(21);
    assert_eq!(someone_elses.process_at(ChooseParams { indicate: 1 }, 2_000), Err(ErrorCode::UnexpectedAccount));
    let mut other_token = choose_ctx();
    other_token.token_account.key = key(22);
    assert_eq!(other_token.process_at(ChooseParams { indicate: 1 }, 2_000), Err(ErrorCode::UnexpectedAccount));
    let mut other_position = choose_ctx();
    other_position.user_position.key = key(24);
    assert_eq!(other_position.process_at(ChooseParams { indicate: 1 }, 2_000), Err(ErrorCode::UnexpectedAccount));
    assert_eq!(c.event_position.data.amount, 3);
    assert_eq!(resolved.marker.data.indicate, 0);
}

fn copy_withdraw(w: &Withdraw) -> Withdraw {
    Withdraw {
        payer: w.payer,
        sbt_mint: w.sbt_mint,
        marker: w.marker.clone(),
        user_position: w.user_position.clone(),
        event_position: w.event_position.clone(),
        event_market: w.event_market.clone(),
    }
}

#[test]
fn withdrawing_undoes_the_choice() {
    let mut c = choose_ctx();
    c.process_at(ChooseParams { indicate: 1 }, 2_000).unwrap();
    let mut w = Withdraw {
        payer: c.payer,
        sbt_mint: c.sbt_mint,
        marker: c.marker.clone(),
        user_position: c.user_position.clone(),
        event_position: c.event_position.clone(),
        event_market: c.event_market.clone(),
    };
    assert_eq!(w.process(WithdrawParams { indicate: 2 }), Err(ErrorCode::UnexpectedAccount));
    let mut other_option = Withdraw { event_position: Account { key: tally_key(2), data: c.event_position.data }, ..copy_withdraw(&w) };
    assert_eq!(other_option.process(WithdrawParams { indicate: 2 }), Err(ErrorCode::PositionNotFound));
    let mut intruder = copy_withdraw(&w);
    intruder.payer = key(21);
    assert_eq!(intruder.process(WithdrawParams { indicate: 1 }), Err(ErrorCode::UnexpectedAccount));
    let e = w.process(WithdrawParams { indicate: 1 }).unwrap();
    assert_eq!(e.event_type, ChooseEventType::Withdraw);
    assert_eq!(w.marker.data.indicate, 0);
    assert!(!w.user_position.data.existed);
    assert_eq!(w.event_position.data.amount, 3);
}

fn resolve_ctx(open_raw_data: Option<u64>, raw_data: u64) -> FearAndGreedEventMarketResolve {
    let oracle_config_key = key(31);
    let oracle_data_key = get_oracle_data_account_pubkey(oracle_config_key).unwrap();
    let mut m = market(key(30));
    m.open_raw_data = open_raw_data;
    FearAndGreedEventMarketResolve {
        resolver: key(9),
        oracle_config: Account {
            key: oracle_config_key,
            data: OracleConfig {
                name: "fng".to_string(),
                description: "d".to_string(),
                total_phases: 2,
                authority_pubkeys: vec![key(2)],
                admin: key(9),
                bump: 255,
            },
        },
        oracle_data: Account {
            key: oracle_data_key,
            data: OracleData { config: oracle_config_key, phase: 1, raw_data, decimals: 0, previous_timestamp: 0, timestamp: 5_000, slot: 0, bump: 254 },
        },
        event_config: Account { key: key(30), data: event_config(oracle_config_key, key(9)) },
        event_market: Account { key: key(32), data: m },
    }
}

#[test]
fn falling_index_makes_option_one_win() {
    let mut r = resolve_ctx(Some(50), 40);
    r.process_at(FearAndGreedEventMarketResolveParams { prize: 7 }, 5_000).unwrap();
    assert_eq!((r.event_market.data.result, r.event_market.data.prize), (1, 7));
    assert!(!r.event_market.data.is_opened);
    let mut r = resolve_ctx(Some(50), 50);
    r.process_at(FearAndGreedEventMarketResolveParams { prize: 7 }, 5_000).unwrap();
    assert_eq!(r.event_market.data.result, 2);
}

#[test]
fn resolution_refusals() {
    let mut early = resolve_ctx(Some(50), 40);
    assert_eq!(
        early.process_at(FearAndGreedEventMarketResolveParams { prize: 7 }, 4_600),
        Err(ErrorCode::EventIsOngoing)
    );
    let mut done = resolve_ctx(Some(50), 40);
    done.process_at(FearAndGreedEventMarketResolveParams { prize: 7 }, 5_000).unwrap();
    assert_eq!(
        done.process_at(FearAndGreedEventMarketResolveParams { prize: 9 }, 6_000),
        Err(ErrorCode::EventIsFinalized)
    );
    assert_eq!(done.event_market.data.prize, 7);
    let mut no_data = resolve_ctx(None, 40);
    assert_eq!(
        no_data.process_at(FearAndGreedEventMarketResolveParams { prize: 7 }, 5_000),
        Err(ErrorCode::EventMarketDataError)
    );
    let mut stranger = resolve_ctx(Some(50), 40);
    stranger.resolver = key(1);
    assert_eq!(
        stranger.process_at(FearAndGreedEventMarketResolveParams { prize: 7 }, 5_000),
        Err(ErrorCode::Unauthorized)
    );
}

#[test]
fn oracle_data_address_matches_the_address_search() {
    let pid = ChainPubkey::new_from_array(monitor_id().0);
    let config = key(31);
    let (expected, _) = ChainPubkey::find_program_address(&[b"oracle-data", &config.0], &pid);
    assert_eq!(get_oracle_data_account_pubkey(config), Some(Pubkey(expected.to_bytes())));
}

#[test]
fn event_market_address_matches_the_address_search() {
    let pid = ChainPubkey::new_from_array(factory_id().0);
    let (expected, bump) =
        ChainPubkey::find_program_address(&[b"event_market", &key(31).0, &1_000u64.to_be_bytes()], &pid);
    assert_eq!(EventMarket::find_event_market_account(key(31), 1_000), Some((Pubkey(expected.to_bytes()), bump)));
    let (global, gbump) = ChainPubkey::find_program_address(&[b"global_config"], &pid);
    assert_eq!(GlobalConfig::find_global_config_account(), Some((Pubkey(global.to_bytes()), gbump)));
}

fn market_bytes(m: &EventMarket) -> Vec<u8> {
    let mut b = vec![247u8, 24, 47, 173, 251, 86, 156, 192];
    b.extend_from_slice(&m.event_config.0);
    match m.open_raw_data {
        Some(v) => {
            b.push(1);
            b.extend_from_slice(&v.to_le_bytes());
        }
        None => b.push(0),
    }
    match m.open_phase {
        Some(v) => {
            b.push(1);
            b.push(v);
        }
        None => b.push(0),
    }
    b.push(m.option);
    b.push(m.result);
    for v in [m.prize, m.open_slot, m.open_ts, m.close_ts, m.expiry_ts] {
        b.extend_from_slice(&v.to_le_bytes());
    }
    b.push(m.is_opened as u8);
    b.push(m.bump);
    b
}

#[test]
fn stored_market_reads_back() {
    let m = market(key(30));
    assert_eq!(EventMarket::try_deserialize(&market_bytes(&m)), Ok(m));
    let mut fresh = market(key(30));
    fresh.open_raw_data = None;
    fresh.open_phase = None;
    fresh.is_opened = false;
    assert_eq!(EventMarket::try_deserialize(&market_bytes(&fresh)), Ok(fresh));
}

#[test]
fn malformed_market_is_refused() {
    let m = market(key(30));
    let mut bytes = market_bytes(&m);
    let n = bytes.len();
    bytes[n - 2] = 2;
    assert_eq!(EventMarket::try_deserialize(&bytes), Err(AccountError::AccountDidNotDeserialize));
    let mut tag = market_bytes(&m);
    tag[40] = 5;
    assert_eq!(EventMarket::try_deserialize(&tag), Err(AccountError::AccountDidNotDeserialize));
    let oracle = vec![26u8, 131, 25, 110, 6, 141, 10, 37];
    assert_eq!(EventMarket::try_deserialize(&oracle), Err(AccountError::AccountDiscriminatorMismatch));
    assert_eq!(EventMarket::try_deserialize(&[]), Err(AccountError::AccountDiscriminatorNotFound));
}

#[test]
fn uri_is_padded_to_its_slot() {
    let u = UriResource::validate("https://example.com/a.json").unwrap();
    assert_eq!(u.len, 26);
    assert_eq!(&u.uri[..26], b"https://example.com/a.json");
    assert!(u.uri[26..].iter().all(|b| *b == 0));
    assert_eq!(UriResource::validate(&"u".repeat(151)), Err(ErrorCode::StringTooLong));
    assert!(UriResource::validate(&"u".repeat(150)).is_ok());
}

fn edition_mint_of(indicate: u8) -> Pubkey {
    let seeds = vec![b"sbt_mint".to_vec(), key(30).0.to_vec(), vec![indicate], key(20).0.to_vec()];
    find_program_address(&seeds, &factory_id()).unwrap().0
}

fn claim_ctx(result: u8, indicate: u8, edition_exists: bool) -> (Claim, ClaimParams) {
    let payer = key(20);
    let token_program = key(54);
    let mint = MintConfig::find_mint(None).unwrap().0;
    let master_seeds = vec![b"sbt_mint".to_vec(), key(30).0.to_vec(), vec![indicate]];
    let master_mint = find_program_address(&master_seeds, &factory_id()).unwrap().0;
    let edition_mint = edition_mint_of(indicate);
    let collection = key(42);
    let (sbt_mint, _) = find_program_address(&vec![b"sbt_mint".to_vec(), payer.0.to_vec()], &factory_id()).unwrap();
    let mut m = market(key(30));
    m.result = result;
    m.prize = 500;
    let c = Claim {
        payer,
        global_config: Account { key: gc_key(), data: GlobalConfig { event_mining_pda: key(44), ..GlobalConfig::default() } },
        event_config: Account { key: key(30), data: event_config(key(31), key(9)) },
        event_market: Account { key: key(32), data: m },
        marker: Account {
            key: Marker::find_marker_account(payer, sbt_mint).unwrap().0,
            data: Marker { indicate, event_market: Some(key(32)), bump: 249 },
        },
        user_position: Account {
            key: UserPosition::find_user_position_account(key(32), payer, None).unwrap().0,
            data: UserPosition { position_type: PositionType::UserSBTPosition, existed: true, marker: key(23) },
        },
        mint: Account { key: mint, data: Mint { supply: 1_000_000, decimals: 9 } },
        token_account: Account {
            key: get_ata(&payer, &mint, &token_program).unwrap(),
            data: TokenAccount { mint, owner: payer, amount: 10 },
        },
        event_mining_pda: key(44),
        event_mining_token_account: Account {
            key: get_ata(&key(44), &mint, &token_program).unwrap(),
            data: TokenAccount { mint, owner: key(44), amount: 1_000 },
        },
        event_sbt_edition_mint: edition_mint,
        event_sbt_edition_mint_data_len: if edition_exists { 82 } else { 0 },
        event_sbt_edition_token_account: get_ata(&payer, &edition_mint, &token_program).unwrap(),
        event_sbt_edition_metadata: MintConfig::find_metadata(edition_mint).unwrap().0,
        event_sbt_edition: key(48),
        event_sbt_edition_pda: key(49),
        authority: MintConfig::find_authority(collection).unwrap().0,
        collection_mint: Account { key: collection, data: Mint { supply: 1, decimals: 0 } },
        event_sbt_master_edition_mint: Account { key: master_mint, data: Mint { supply: 1, decimals: 0 } },
        event_sbt_master_edition_token_account: Account {
            key: key(51),
            data: TokenAccount { mint: master_mint, owner: key(52), amount: 1 },
        },
        event_sbt_master_edition_metadata: key(53),
        event_sbt_master_edition: MintConfig::find_master_edition(master_mint).unwrap().0,
        token_program,
    };
    (c, ClaimParams { indicate, sbt_mint })
}

#[test]
fn losing_claim_frees_the_sbt_only() {
    let (mut c, p) = claim_ctx(2, 1, false);
    let out = c.process(p, 251).unwrap();
    assert!(out.transfer.is_none() && out.print.is_none());
    assert_eq!(c.marker.data.indicate, 0);
    assert!(!c.user_position.data.existed);
}

#[test]
fn winning_claim_pays_the_prize_and_prints_once() {
    let (mut c, p) = claim_ctx(2, 2, false);
    let out = c.process(p, 251).unwrap();
    let (transfer, event) = out.transfer.unwrap();
    assert_eq!((transfer.from, transfer.to), (c.event_mining_token_account.key, c.token_account.key));
    assert_eq!((transfer.amount, transfer.decimals), (500, 9));
    assert_eq!(event.from_change.unwrap().new, 500);
    assert_eq!(event.to_change.unwrap().new, 510);
    let (print, minted) = out.print.unwrap();
    let edition_mint = edition_mint_of(2);
    assert_eq!((print.edition_mint, print.owner, print.edition_number), (edition_mint, key(20), 1));
    let m = &print.new_mint;
    assert_eq!((m.mint, m.payer, m.space, m.decimals, m.non_transferable), (edition_mint, key(20), 170, 0, true));
    assert_eq!((m.mint_authority, m.freeze_authority), (c.authority, Some(c.authority)));
    assert_eq!(m.signer_seeds.len(), 5);
    assert_eq!(minted.mint_key, edition_mint);
    let (mut again, p2) = claim_ctx(2, 2, true);
    let out2 = again.process(p2, 251).unwrap();
    assert!(out2.transfer.is_some() && out2.print.is_none());
}

#[test]
fn claim_refusals() {
    let (mut forged, p) = claim_ctx(2, 2, false);
    forged.global_config.key = key(50);
    assert_eq!(forged.process(p, 251), Err(ErrorCode::UnexpectedAccount));
    let (mut ongoing, p) = claim_ctx(0, 2, false);
    assert_eq!(ongoing.process(p, 251), Err(ErrorCode::EventIsOngoing));
    let (mut wrong_option, p) = claim_ctx(2, 2, false);
    assert_eq!(wrong_option.process(ClaimParams { indicate: 1, ..p }, 251), Err(ErrorCode::InvalidArgument));
    let (mut other_sbt, p) = claim_ctx(2, 2, false);
    other_sbt.marker.key = Marker::find_marker_account(key(20), key(1)).unwrap().0;
    assert_eq!(other_sbt.process(ClaimParams { sbt_mint: key(1), ..p }, 251), Err(ErrorCode::InvalidArgument));
    let (mut poor, p) = claim_ctx(2, 2, false);
    poor.event_mining_token_account.data.amount = 499;
    assert_eq!(poor.process(p, 251), Err(ErrorCode::NotSufficientBalance));
    assert_eq!(poor.marker.data.indicate, 2);
    let (mut fungible_metadata, p) = claim_ctx(2, 2, false);
    fungible_metadata.event_sbt_edition_metadata = MintConfig::find_metadata(fungible_metadata.mint.key).unwrap().0;
    assert_eq!(fungible_metadata.process(p, 251), Err(ErrorCode::UnexpectedAccount));
    let (mut other_pda, p) = claim_ctx(2, 2, false);
    other_pda.global_config.data.event_mining_pda = key(45);
    assert_eq!(other_pda.process(p, 251), Err(ErrorCode::UnexpectedAccount));
    let (mut other_source, p) = claim_ctx(2, 2, false);
    other_source.event_mining_token_account.key = key(45);
    assert_eq!(other_source.process(p, 251), Err(ErrorCode::UnexpectedAccount));
    let (mut other_edition, p) = claim_ctx(2, 2, false);
    other_edition.event_sbt_edition_mint = edition_mint_of(1);
    other_edition.event_sbt_edition_metadata = MintConfig::find_metadata(edition_mint_of(1)).unwrap().0;
    assert_eq!(other_edition.process(p, 251), Err(ErrorCode::UnexpectedAccount));
    let (mut other_marker, p) = claim_ctx(2, 2, false);
    other_marker.marker.key = key(23);
    assert_eq!(other_marker.process(p, 251), Err(ErrorCode::UnexpectedAccount));
    assert_eq!(other_marker.marker.data.indicate, 2);
    let (mut no_position, p) = claim_ctx(2, 2, false);
    no_position.user_position.data.existed = false;
    assert_eq!(no_position.process(p, 251), Err(ErrorCode::PositionNotFound));
}

fn toggle_ctx() -> ToggleEventMarket {
    let mut m = market(key(30));
    m.is_opened = false;
    m.open_raw_data = None;
    m.open_phase = None;
    ToggleEventMarket {
        payer: key(20),
        governor: key(9),
        global_config: Account { key: gc_key(), data: GlobalConfig { governor: key(9), ..GlobalConfig::default() } },
        oracle_data: Account {
            key: get_oracle_data_account_pubkey(key(31)).unwrap(),
            data: OracleData { config: key(31), phase: 1, raw_data: 64, decimals: 0, previous_timestamp: 0, timestamp: 900, slot: 0, bump: 254 },
        },
        event_config: Account { key: key(30), data: event_config(key(31), key(9)) },
        event_market_account: Account { key: key(32), data: m },
    }
}

#[test]
fn toggling_opens_and_takes_the_reading() {
    let mut t = toggle_ctx();
    let e = t.process(ToggleEventMarketParams { toggle: true, fetch_oracle_data: true }).unwrap();
    assert!(e.is_some());
    let m = t.event_market_account.data;
    assert!(m.is_opened);
    assert_eq!((m.open_raw_data, m.open_phase), (Some(64), Some(1)));
    let e = t.process(ToggleEventMarketParams { toggle: true, fetch_oracle_data: false }).unwrap();
    assert!(e.is_none());
    assert!(!t.event_market_account.data.is_opened);
}

#[test]
fn toggle_refusals() {
    let mut t = toggle_ctx();
    t.governor = key(1);
    assert_eq!(t.process(ToggleEventMarketParams { toggle: true, fetch_oracle_data: true }), Err(ErrorCode::Unauthorized));
    let mut unpaired = toggle_ctx();
    unpaired.oracle_data.key = get_oracle_data_account_pubkey(key(33)).unwrap();
    assert_eq!(
        unpaired.process(ToggleEventMarketParams { toggle: true, fetch_oracle_data: true }),
        Err(ErrorCode::UnexpectedAccount)
    );
    assert_eq!(unpaired.event_market_account.data.open_raw_data, None);
    assert!(unpaired.process(ToggleEventMarketParams { toggle: true, fetch_oracle_data: false }).is_ok());
    let mut forged = toggle_ctx();
    forged.global_config.key = key(50);
    assert_eq!(
        forged.process(ToggleEventMarketParams { toggle: true, fetch_oracle_data: false }),
        Err(ErrorCode::UnexpectedAccount)
    );
    let mut done = toggle_ctx();
    done.event_market_account.data.result = 1;
    assert_eq!(
        done.process(ToggleEventMarketParams { toggle: true, fetch_oracle_data: true }),
        Err(ErrorCode::EventIsFinalized)
    );
}

fn create_market_ctx() -> CreateEventMarket {
    let oracle_config_key = key(31);
    let oracle_data_key = get_oracle_data_account_pubkey(oracle_config_key).unwrap();
    CreateEventMarket {
        payer: key(20),
        governor: key(9),
        global_config: Account { key: gc_key(), data: GlobalConfig { governor: key(9), ..GlobalConfig::default() } },
        event_config: Account { key: key(30), data: event_config(oracle_config_key, key(9)) },
        oracle_config: Account {
            key: oracle_config_key,
            data: OracleConfig {
                name: "fng".to_string(),
                description: "d".to_string(),
                total_phases: 2,
                authority_pubkeys: vec![key(2)],
                admin: key(9),
                bump: 255,
            },
        },
        oracle_data: Account {
            key: oracle_data_key,
            data: OracleData { config: oracle_config_key, phase: 1, raw_data: 64, decimals: 0, previous_timestamp: 0, timestamp: 900, slot: 0, bump: 254 },
        },
        event_market_account: Account {
            key: EventMarket::find_event_market_account(oracle_config_key, 3_601).unwrap().0,
            data: market(key(0)),
        },
    }
}

#[test]
fn created_market_starts_closed_with_the_oracle_reading() {
    let mut c = create_market_ctx();
    let params = CreateEventMarketParams { open_ts: 3_601, close_ts: 7_201, expiry_ts: 7_201 };
    let e = c.process_at(params, 252, ClockReading { slot: 77, unix_timestamp: 1_000 }).unwrap();
    assert_eq!(e.event, Some(EventMarket::find_event_market_account(key(31), 3_601).unwrap().0));
    let m = c.event_market_account.data;
    assert_eq!((m.event_config, m.open_raw_data, m.open_phase, m.option), (key(30), Some(64), Some(1), 2));
    assert_eq!((m.open_slot, m.open_ts, m.close_ts, m.expiry_ts, m.bump), (77, 3_601, 7_201, 7_201, 252));
    assert!(!m.is_opened);
    assert_eq!((m.result, m.prize), (0, 0));
    assert_eq!(c.event_config.data.index, 2);
}

#[test]
fn market_creation_refusals() {
    let params = CreateEventMarketParams { open_ts: 3_601, close_ts: 7_201, expiry_ts: 7_201 };
    let clock = ClockReading { slot: 77, unix_timestamp: 1_000 };
    let mut forged = create_market_ctx();
    forged.global_config.key = key(50);
    assert_eq!(forged.process_at(params, 252, clock), Err(ErrorCode::UnexpectedAccount));
    let mut stranger = create_market_ctx();
    stranger.governor = key(1);
    assert_eq!(stranger.process_at(params, 252, clock), Err(ErrorCode::Unauthorized));
    let mut late = create_market_ctx();
    assert_eq!(late.process_at(params, 252, ClockReading { slot: 77, unix_timestamp: 7_201 }), Err(ErrorCode::InvalidArgument));
    let mut unfed = create_market_ctx();
    unfed.oracle_data.data.timestamp = 0;
    assert_eq!(unfed.process_at(params, 252, clock), Err(ErrorCode::OracleDataError));
    let mut other = create_market_ctx();
    other.oracle_data.data.config = key(5);
    assert_eq!(other.process_at(params, 252, clock), Err(ErrorCode::ConfigMismatched));
    assert_eq!(other.event_config.data.index, 1);
    let mut elsewhere = create_market_ctx();
    elsewhere.event_market_account.key = key(32);
    assert_eq!(elsewhere.process_at(params, 252, clock), Err(ErrorCode::UnexpectedAccount));
    let mut another_day = create_market_ctx();
    let next_day = CreateEventMarketParams { open_ts: 90_001, close_ts: 93_601, expiry_ts: 93_601 };
    assert_eq!(another_day.process_at(next_day, 252, clock), Err(ErrorCode::UnexpectedAccount));
    assert_eq!(another_day.event_config.data.index, 1);
}

#[test]
fn refusals_without_the_clock_come_first() {
    let params = CreateEventMarketParams { open_ts: 3_601, close_ts: 7_201, expiry_ts: 7_201 };
    let mut stranger = create_market_ctx();
    stranger.governor = key(1);
    assert_eq!(stranger.process(params, 252), Err(InstructionError::Code(ErrorCode::Unauthorized)));
    let mut elsewhere = create_market_ctx();
    elsewhere.event_market_account.key = key(32);
    assert_eq!(elsewhere.process(params, 252), Err(InstructionError::Code(ErrorCode::UnexpectedAccount)));
    let mut fine = create_market_ctx();
    assert_eq!(fine.process(params, 252), Err(InstructionError::ClockUnavailable));
    assert_eq!(fine.event_config.data.index, 1);
    let mut closed = choose_ctx();
    closed.event_market.data.is_opened = false;
    assert_eq!(
        closed.process(ChooseParams { indicate: 1 }),
        Err(InstructionError::Code(ErrorCode::EventIsNotOpen))
    );
    let mut other = choose_ctx();
    other.event_market.data.event_config = key(99);
    assert_eq!(
        other.process(ChooseParams { indicate: 1 }),
        Err(InstructionError::Code(ErrorCode::UnexpectedAccount))
    );
    let mut intruder = resolve_ctx(Some(50), 40);
    intruder.resolver = key(1);
    assert_eq!(
        intruder.process(FearAndGreedEventMarketResolveParams { prize: 7 }),
        Err(InstructionError::Code(ErrorCode::Unauthorized))
    );
    assert_eq!(intruder.event_market.data.result, 0);
}

fn collection_ctx() -> InitializeCollection {
    let (mint, _) = find_program_address(&vec![b"collection".to_vec()], &factory_id()).unwrap();
    InitializeCollection {
        payer: key(9),
        global_config: Account { key: gc_key(), data: GlobalConfig { admin: key(9), ..GlobalConfig::default() } },
        authority: MintConfig::find_authority(mint).unwrap().0,
        mint: Account { key: mint, data: Mint { supply: 0, decimals: 0 } },
        metadata: MintConfig::find_metadata(mint).unwrap().0,
        master_edition: MintConfig::find_master_edition(mint).unwrap().0,
    }
}

fn collection_params() -> InitializeCollectionParams {
    InitializeCollectionParams { name: "Monitare".to_string(), symbol: "MNT".to_string(), uri: "u".to_string() }
}

#[test]
fn collection_is_an_unprintable_nft_of_its_authority() {
    let c = collection_ctx();
    let (mint, mint_bump) = find_program_address(&vec![b"collection".to_vec()], &factory_id()).unwrap();
    let out = c.process(collection_params()).unwrap();
    let n = &out.new_mint;
    assert_eq!((n.mint, n.payer, n.space, n.decimals, n.non_transferable), (mint, key(9), 82, 0, false));
    assert_eq!((n.mint_authority, n.freeze_authority), (c.authority, Some(c.authority)));
    assert_eq!(n.signer_seeds, vec![b"collection".to_vec(), vec![mint_bump]]);
    let m = &out.metadata;
    assert_eq!((m.metadata, m.master_edition, m.mint), (c.metadata, Some(c.master_edition), mint));
    assert_eq!((m.authority, m.update_authority, m.creator), (c.authority, c.authority, Some(c.authority)));
    assert_eq!((m.name.as_str(), m.symbol.as_str(), m.uri.as_str()), ("Monitare", "MNT", "u"));
    assert_eq!((m.seller_fee_basis_points, m.is_mutable, m.collection), (0, true, None));
    assert_eq!((m.collection_size, m.print_supply, m.decimals), (Some(0), Some(PrintSupply::Zero), Some(0)));
}

#[test]
fn collection_refusals() {
    let mut forged = collection_ctx();
    forged.global_config.key = key(50);
    assert_eq!(forged.process(collection_params()), Err(ErrorCode::UnexpectedAccount));
    let mut stranger = collection_ctx();
    stranger.payer = key(1);
    assert_eq!(stranger.process(collection_params()), Err(ErrorCode::Unauthorized));
    let mut wrong_authority = collection_ctx();
    wrong_authority.authority = key(1);
    assert_eq!(wrong_authority.process(collection_params()), Err(ErrorCode::UnexpectedAccount));
    let other_mint = key(40);
    let mut wrong_mint = collection_ctx();
    wrong_mint.mint.key = other_mint;
    wrong_mint.authority = MintConfig::find_authority(other_mint).unwrap().0;
    wrong_mint.metadata = MintConfig::find_metadata(other_mint).unwrap().0;
    wrong_mint.master_edition = MintConfig::find_master_edition(other_mint).unwrap().0;
    assert_eq!(wrong_mint.process(collection_params()), Err(ErrorCode::UnexpectedAccount));
    let mut wrong_metadata = collection_ctx();
    wrong_metadata.metadata = key(2);
    assert_eq!(wrong_metadata.process(collection_params()), Err(ErrorCode::UnexpectedAccount));
}

fn mint_ctx(supply: u64) -> MintTokens {
    let mint = key(40);
    let user = key(20);
    let token_account = get_ata(&user, &mint, &token_2022_id()).unwrap();
    MintTokens {
        payer: key(9),
        global_config: Account { key: gc_key(), data: GlobalConfig { admin: key(9), ..GlobalConfig::default() } },
        mint: Account { key: mint, data: Mint { supply, decimals: 9 } },
        user,
        token_account: Account { key: token_account, data: TokenAccount { mint, owner: user, amount: 5 } },
        authority: MintConfig::find_authority(mint).unwrap().0,
        token_program: token_2022_id(),
    }
}

#[test]
fn minting_stays_within_the_maximum_supply() {
    let c = mint_ctx(FT_MAX_SUPPLY - 10);
    let (mint_to, event) = c.process(MintTokensParams { amount: 10 }).unwrap();
    assert_eq!((mint_to.mint, mint_to.to, mint_to.amount), (key(40), c.token_account.key, 10));
    assert_eq!(event.to_change.unwrap().new, 15);
    assert_eq!(c.process(MintTokensParams { amount: 11 }), Err(ErrorCode::MintExceedMaxSupply));
    assert_eq!(ErrorCode::MintExceedMaxSupply.message(), "Minting exceeds max supply limit");
    let mut stranger = mint_ctx(0);
    stranger.payer = key(1);
    assert_eq!(stranger.process(MintTokensParams { amount: 1 }), Err(ErrorCode::Unauthorized));
    let mut elsewhere = mint_ctx(0);
    elsewhere.token_account.key = key(3);
    assert_eq!(elsewhere.process(MintTokensParams { amount: 1 }), Err(ErrorCode::UnexpectedAccount));
    let mut forged = mint_ctx(0);
    forged.global_config.key = key(50);
    assert_eq!(forged.process(MintTokensParams { amount: 1 }), Err(ErrorCode::UnexpectedAccount));
    let mut impostor = mint_ctx(0);
    impostor.authority = key(41);
    assert_eq!(impostor.process(MintTokensParams { amount: 1 }), Err(ErrorCode::UnexpectedAccount));
}
