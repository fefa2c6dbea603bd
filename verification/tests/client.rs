use std::str::FromStr;

use chrono::{DateTime, Timelike, Utc};

use anchor_lang::prelude::Pubkey as ChainPubkey;
use monitare::client::api::get_oracle_data;
use monitare::client::conf::{Api, ClientConfig, EventConfig, Market, Metadata, OracleConfig, SolanaConfig, Tokenomics};
use monitare::client::decimal::parse_u64;
use monitare::client::error::ClientError;
use monitare::client::event::{AddressError, EventCaller};
use monitare::client::event_manager::{
    close_ts_for, creation_request, creation_step, daily_open_times, event_prize, fetch_due, hourly_open_times,
    refine_plan, refine_toggle, toggle_plan, Cadence, Checklist, CreationStep, Event, RefinePlan,
};
use monitare::client::feeder::{earlier_data, oracle_request, FeedError, FeedState};
use monitare::client::fetcher::IndexData;
use monitare::client::mem_db::{
    fetched, lookup, merged, record, record_key, FearAndGreedApiData, MemDbError, OracleDataFetched, OracleDataValue,
};
use monitare::client::oracle::{check_oracle_config, oracle_pdas, ChainCaller, OracleDataRequest};
use monitare::client::response::{ApiErr, ApiOK, Status};
use monitare::client::time::{floor_to_day, floor_to_hour, time_delta_add, TimeError};
use monitare::monitor::state::OracleData;
use monitare::pubkey::{associated_token_id, factory_id, monitor_id, token_2022_id, token_metadata_id, Pubkey};

const FACTORY_ID_TEXT: &str = "36KZHRWMKbGNsMZ2jMVuRbnMUrjzRr8kmjHyPJ9ipvFW";
const MONITOR_ID_TEXT: &str = "9vDvoPvmq68icnHWXowjqoEKgSs8TvBmmFvTcFztephV";

fn config(name: &str, description: &str) -> ClientConfig {
    ClientConfig {
        solana: SolanaConfig {
            rpc_url: "http://127.0.0.1:8899".to_string(),
            ws_url: "ws://127.0.0.1:8900".to_string(),
            keypair_path: "id.json".to_string(),
            commitment: "confirmed".to_string(),
            network: "devnet".to_string(),
        },
        oracle: OracleConfig {
            config_name: name.to_string(),
            config_description: description.to_string(),
            total_phase: 2,
            authority_pubkey: MONITOR_ID_TEXT.to_string(),
            interval: 60,
            program_id: MONITOR_ID_TEXT.to_string(),
        },
        event: EventConfig {
            program_id: FACTORY_ID_TEXT.to_string(),
            vision_mining_admin_pubkey: FACTORY_ID_TEXT.to_string(),
        },
        market: Market { hourly_create: true, daily_create: true },
        metadata: Metadata {
            ft_token_name: "Vision".to_string(),
            ft_token_symbol: "VSN".to_string(),
            ft_token_url: "https://example.com/ft.json".to_string(),
            ft_token_decimal: 6,
            sbt_token_name: "SBT".to_string(),
            sbt_token_symbol: "SBT".to_string(),
            sbt_token_url: "https://example.com/sbt.json".to_string(),
            event_metadata_url: "https://example.com/event.json".to_string(),
            fear_sbt_token_name: "Fear".to_string(),
            fear_sbt_token_symbol: "FEAR".to_string(),
            fear_sbt_token_url: "https://example.com/fear.json".to_string(),
            greed_sbt_token_name: "Greed".to_string(),
            greed_sbt_token_symbol: "GREED".to_string(),
            greed_sbt_token_url: "https://example.com/greed.json".to_string(),
        },
        tokenomics: Tokenomics { vision_mining: 1_000, event_mining: 2_000, event_prize: 5 },
        api: Api { port: 8080 },
    }
}

fn chain(k: &Pubkey) -> ChainPubkey {
    ChainPubkey::new_from_array(k.0)
}

fn index(value: &str, timestamp: &str) -> IndexData {
    IndexData {
        value: value.to_string(),
        value_classification: "Neutral".to_string(),
        timestamp: timestamp.to_string(),
        time_until_update: "100".to_string(),
    }
}

fn oracle_data(raw_data: u64, timestamp: u64) -> OracleData {
    OracleData { config: Pubkey([7u8; 32]), phase: 0, raw_data, decimals: 0, previous_timestamp: 0, timestamp, slot: 0, bump: 254 }
}

#[test]
fn program_ids_match_their_base58_text() {
    assert_eq!(ChainPubkey::from_str(FACTORY_ID_TEXT).unwrap().to_bytes(), factory_id().0);
    assert_eq!(ChainPubkey::from_str(MONITOR_ID_TEXT).unwrap().to_bytes(), monitor_id().0);
    assert_eq!(
        ChainPubkey::from_str("metaqbxxUerdq28cj1RbAWkYQm3ybzjb6a8bt518x1s").unwrap().to_bytes(),
        token_metadata_id().0
    );
    assert_eq!(
        ChainPubkey::from_str("ATokenGPvbdGVxr1b2hvZbsiqW5xWH25efTNsLJA8knL").unwrap().to_bytes(),
        associated_token_id().0
    );
    assert_eq!(
        ChainPubkey::from_str("TokenzQdBNbLqP5VEhdkAS6EPFLC1PHnBqCXEpPxuEb").unwrap().to_bytes(),
        token_2022_id().0
    );
}

#[test]
fn status_replies_carry_code_message_and_data() {
    let ok = Status::OK(Some(5u32)).to_reply();
    assert_eq!((ok.code, ok.err, ok.msg.as_str(), ok.data), (0, false, "OK", Some(5)));
    let failed = Status::<u32>::Error(7, "x".to_string()).to_reply();
    assert_eq!((failed.code, failed.err, failed.msg.as_str(), failed.data), (7, true, "x", None));
    let api_ok = ApiOK(Some("data")).into_reply();
    assert_eq!((api_ok.code, api_ok.err, api_ok.msg.as_str(), api_ok.data), (0, false, "OK", Some("data")));
}

#[test]
fn api_errors_are_answered_with_their_codes() {
    let system = ApiErr::ErrSystem(None).into_reply();
    assert_eq!((system.code, system.err, system.msg.as_str()), (50000, true, "Internal error"));
    assert!(system.data.is_none());
    let system_msg = ApiErr::ErrSystem(Some("db down".to_string())).into_reply();
    assert_eq!((system_msg.code, system_msg.msg.as_str()), (50000, "db down"));
    let own = ApiErr::Error(40001, "bad timestamp".to_string()).into_reply();
    assert_eq!((own.code, own.err, own.msg.as_str()), (40001, true, "bad timestamp"));
}

#[test]
fn client_error_messages() {
    assert_eq!(ClientError::InvalidParam("name".to_string()).message(), "The param 'name' is not valid.");
    assert_eq!(
        ClientError::CannotFetchDataFromAPIServer("https://api.alternative.me/fng/".to_string()).message(),
        "Can not fetch data from API server 'https://api.alternative.me/fng/'"
    );
}

#[test]
fn record_bytes_are_little_endian_words() {
    let v = OracleDataValue { raw_data: 42, timestamp: 1_700_000_000, authoritative: 1 };
    let mut expected = Vec::new();
    expected.extend_from_slice(&42u64.to_le_bytes());
    expected.extend_from_slice(&1_700_000_000u64.to_le_bytes());
    expected.extend_from_slice(&1u64.to_le_bytes());
    assert_eq!(v.as_bytes(), expected);
    let back = OracleDataValue::from_bytes(&expected);
    assert_eq!((back.raw_data, back.timestamp, back.authoritative), (42, 1_700_000_000, 1));
}

#[test]
fn chain_reading_reads_back_authoritative() {
    let d = oracle_data(61, 1_700_003_600);
    let (key, value) = record(Some(&d), Some(FearAndGreedApiData { raw_data: 1, timestamp: 2 })).unwrap();
    assert_eq!(key, 1_700_003_600);
    let f = fetched(&value.as_bytes());
    assert_eq!((f.raw_data, f.timestamp, f.authoritative), (61, 1_700_003_600, true));
}

#[test]
fn api_reading_reads_back_not_authoritative() {
    let (key, value) = record(None, Some(FearAndGreedApiData { raw_data: 33, timestamp: 1_600_000_000 })).unwrap();
    assert_eq!(key, 1_600_000_000);
    let f = lookup(Some(value.as_bytes())).unwrap();
    assert_eq!((f.raw_data, f.timestamp, f.authoritative), (33, 1_600_000_000, false));
}

#[test]
fn record_without_reading_is_refused() {
    assert_eq!(record(None, None).unwrap_err(), MemDbError::UnsupportedParams);
    assert_eq!(MemDbError::UnsupportedParams.message(), "not supported params");
}

#[test]
fn lookup_without_record_is_not_found() {
    assert_eq!(lookup(None).unwrap_err(), MemDbError::NotFound);
    assert_eq!(MemDbError::NotFound.message(), "can not find data from memory db");
}

#[test]
fn any_nonzero_mark_is_authoritative() {
    let v = OracleDataValue { raw_data: 1, timestamp: 2, authoritative: 7 };
    let f: OracleDataFetched = fetched(&v.as_bytes());
    assert!(f.authoritative);
}

#[test]
fn record_keys_sort_by_time() {
    assert_eq!(record_key(1_700_000_000), 1_700_000_000u64.to_be_bytes().to_vec());
    assert!(record_key(255) < record_key(256));
}

#[test]
fn first_record_under_a_key_is_kept() {
    assert_eq!(merged(Some(vec![1, 2, 3]), vec![9, 9]), vec![1, 2, 3]);
    assert_eq!(merged(None, vec![9, 9]), vec![9, 9]);
}

#[test]
fn decimal_numbers_parse_like_std() {
    let cases = [
        "0", "7", "007", "+7", "123", "", "+", "-", "-1", "12a", " 1", "1 ", "18446744073709551615",
        "18446744073709551616", "99999999999999999999", "+18446744073709551615", "٣", "1_000",
    ];
    for c in cases {
        assert_eq!(parse_u64(c), c.parse::<u64>().ok(), "text {:?}", c);
    }
    assert_eq!(parse_u64("+42"), Some(42));
    assert_eq!(parse_u64("18446744073709551616"), None);
}

#[test]
fn fresh_reading_is_detected() {
    let s = FeedState::new();
    assert_eq!(s.latest_timestamp, 0);
    assert_eq!(s.fresh_timestamp(&index("40", "1700000000")), Ok(Some(1_700_000_000)));
    let mut s2 = FeedState::new();
    s2.advance(1_700_000_000);
    assert_eq!(s2.latest_timestamp, 1_700_000_000);
    assert_eq!(s2.fresh_timestamp(&index("40", "1700000000")), Ok(None));
    assert_eq!(s2.fresh_timestamp(&index("40", "soon")), Err(FeedError::InvalidTimestamp));
}

#[test]
fn request_phase_follows_the_direction_of_the_reading() {
    let c = oracle_data(50, 150);
    assert_eq!(
        oracle_request(200, &index("55", "200"), &c),
        Ok(Some(OracleDataRequest { phase: 1, raw_data: 55, decimals: 0 }))
    );
    assert_eq!(
        oracle_request(200, &index("50", "200"), &c),
        Ok(Some(OracleDataRequest { phase: 1, raw_data: 50, decimals: 0 }))
    );
    assert_eq!(
        oracle_request(200, &index("45", "200"), &c),
        Ok(Some(OracleDataRequest { phase: 0, raw_data: 45, decimals: 0 }))
    );
    assert_eq!(oracle_request(150, &index("45", "150"), &c), Ok(None));
    assert_eq!(oracle_request(200, &index("high", "200"), &c), Err(FeedError::InvalidValue));
}

#[test]
fn earlier_readings_are_recorded_in_order() {
    let history = vec![index("10", "300"), index("20", "100"), index("30", "50"), index("40", "200")];
    let r = earlier_data(&history, 200);
    assert!(r.error.is_none());
    let got: Vec<(u64, u64)> = r.records.iter().map(|d| (d.raw_data, d.timestamp)).collect();
    assert_eq!(got, vec![(20, 100), (30, 50)]);
}

#[test]
fn earlier_pass_stops_at_bad_text() {
    let history = vec![index("20", "100"), index("x", "50"), index("30", "40")];
    let r = earlier_data(&history, 200);
    assert_eq!(r.error, Some(FeedError::InvalidValue));
    assert_eq!(r.records.len(), 1);
    let history = vec![index("20", "100"), index("25", "later")];
    let r = earlier_data(&history, 200);
    assert_eq!(r.error, Some(FeedError::InvalidTimestamp));
    assert_eq!(r.records.len(), 1);
    let history = vec![index("x", "300")];
    assert!(earlier_data(&history, 200).error.is_none());
}

#[test]
fn rounding_matches_chrono() {
    for now in [1_700_000_123i64, 0, 59, 3_599, 86_399, -1, -86_401, 1_718_236_799] {
        let d = DateTime::<Utc>::from_timestamp(now, 0).unwrap();
        let hour = d.with_minute(0).unwrap().with_second(0).unwrap().timestamp();
        let day = d.with_hour(0).unwrap().with_minute(0).unwrap().with_second(0).unwrap().timestamp();
        assert_eq!(floor_to_hour(now), Ok(hour));
        assert_eq!(floor_to_day(now), Ok(day));
        assert_eq!(hour, now - now.rem_euclid(3600));
    }
}

#[test]
fn time_delta_add_moves_by_days_hours_seconds() {
    assert_eq!(time_delta_add(0, 1, 2, 3), Ok(86_400 + 7_200 + 3));
    assert_eq!(time_delta_add(1_700_000_000, 0, 1, 1), Ok(1_700_003_601));
    assert_eq!(time_delta_add(-10, 0, 0, 1), Ok((-9i64) as u64));
    assert_eq!(time_delta_add(0, 200_000_000_000_000, 0, 0), Err(TimeError::Delta));
    assert_eq!(TimeError::Delta.message(), "time delta error");
    assert_eq!(TimeError::Rounding.message(), "time rounded error");
    assert_eq!(TimeError::Overflow.message(), "ts add error");
}

#[test]
fn expected_market_open_times() {
    let now = 1_700_001_234i64;
    let r = (now - now % 3600) as u64;
    assert_eq!(hourly_open_times(now).unwrap(), vec![r + 1, r + 3_601, r + 7_201]);
    let d = (now - now % 86_400) as u64;
    assert_eq!(daily_open_times(now).unwrap(), vec![d, d + 86_400, d + 172_800]);
    assert_eq!(close_ts_for(r + 1, Cadence::Hourly), r + 3_601);
    assert_eq!(close_ts_for(d, Cadence::Daily), d + 86_400);
}

#[test]
fn markets_take_the_reading_near_their_close() {
    assert_eq!(fetch_due(1_000, 4_000, Cadence::Hourly), Ok(true));
    assert_eq!(fetch_due(1_000, 4_600, Cadence::Hourly), Ok(false));
    assert_eq!(fetch_due(1_000, 87_400, Cadence::Daily), Ok(true));
    assert_eq!(fetch_due(1_000, 87_401, Cadence::Daily), Ok(false));
    assert_eq!(fetch_due(-1, 0, Cadence::Hourly), Err(TimeError::Overflow));
}

#[test]
fn toggles_of_new_markets() {
    assert_eq!(toggle_plan(false, true), None);
    assert_eq!(toggle_plan(true, true), Some((false, true)));
    assert_eq!(toggle_plan(false, false), Some((true, false)));
    assert!(refine_toggle(false));
    assert!(!refine_toggle(true));
}

#[test]
fn refining_waits_for_open_and_close() {
    let e = Event { open_ts: 100, close_ts: 200, opened: true, fetched: false, resolved: false };
    assert_eq!(refine_plan(&e, 100), RefinePlan { toggle: false, resolve: false });
    assert_eq!(refine_plan(&e, 150), RefinePlan { toggle: true, resolve: false });
    assert_eq!(refine_plan(&e, 201), RefinePlan { toggle: true, resolve: true });
    let done = Event { fetched: true, resolved: true, ..e };
    assert_eq!(refine_plan(&done, 300), RefinePlan { toggle: false, resolve: false });
    assert_eq!(Event::default(), Event { open_ts: 0, close_ts: 0, opened: false, fetched: false, resolved: false });
}

#[test]
fn prize_is_scaled_by_decimals() {
    let cfg = config("fng", "fear and greed");
    assert_eq!(event_prize(&cfg.tokenomics, &cfg.metadata), 5_000_000);
}

#[test]
fn checklist_follows_until_resolved() {
    let mut c = Checklist::new();
    c.track(7_201, 10_801, false);
    c.track(1, 3_601, true);
    c.track(3_601, 7_201, false);
    assert!(c.contains(3_601));
    assert!(!c.contains(1));
    assert_eq!(c.keys(), vec![3_601, 7_201, 10_801]);
    c.mark_fetched(7_201);
    assert!(c.get(7_201).unwrap().fetched);
    c.mark_resolved(3_601);
    c.mark_resolved(10_801);
    c.retain_unresolved();
    assert_eq!(c.keys(), vec![7_201]);
    let e = c.get(7_201).unwrap();
    assert_eq!((e.open_ts, e.close_ts, e.opened, e.fetched, e.resolved), (3_601, 7_201, true, true, false));
    assert!(c.get(3_601).is_none());
}

#[test]
fn long_oracle_names_are_refused() {
    let long_name = "n".repeat(32);
    let e = check_oracle_config(&config(&long_name, "d").oracle).unwrap_err();
    assert_eq!(e.message(), "The param 'name' is not valid.");
    let long_desc = "d".repeat(201);
    let e = check_oracle_config(&config("fng", &long_desc).oracle).unwrap_err();
    assert_eq!(e.message(), "The param 'description' is not valid.");
    assert!(check_oracle_config(&config(&"n".repeat(31), &"d".repeat(200)).oracle).is_ok());
}

#[test]
fn oracle_accounts_match_the_address_search() {
    let pid = chain(&monitor_id());
    let (config_key, config_bump) = ChainPubkey::find_program_address(&[b"oracle-config", b"fng"], &pid);
    let (data_key, data_bump) = ChainPubkey::find_program_address(&[b"oracle-data", config_key.as_ref()], &pid);
    let p = oracle_pdas("fng").unwrap();
    assert_eq!(p.config_pda, (Pubkey(config_key.to_bytes()), config_bump));
    assert_eq!(p.data_pda, (Pubkey(data_key.to_bytes()), data_bump));
    let caller = ChainCaller::new(config("fng", "fear and greed")).unwrap();
    assert_eq!(caller.config_pda.0, Pubkey(config_key.to_bytes()));
    assert_eq!(caller.data_pda.0, Pubkey(data_key.to_bytes()));
    assert!(caller.check_initialize_oracle_config().is_ok());
    assert!(oracle_pdas(&"n".repeat(33)).is_none());
}

#[test]
fn event_accounts_match_the_address_search() {
    let caller = EventCaller::new(config("fng", "fear and greed"));
    let factory = chain(&factory_id());
    let monitor = chain(&monitor_id());
    let metadata_program = chain(&token_metadata_id());
    let (global, _) = ChainPubkey::find_program_address(&[b"global_config"], &factory);
    assert_eq!(caller.get_const_name_pda(b"global_config"), Ok(Pubkey(global.to_bytes())));
    let (mint, _) = ChainPubkey::find_program_address(&[b"mint"], &factory);
    let mint_key = Pubkey(mint.to_bytes());
    let (authority, _) = ChainPubkey::find_program_address(&[b"authority", mint.as_ref()], &factory);
    assert_eq!(caller.get_authority(&mint_key), Ok(Pubkey(authority.to_bytes())));
    let (metadata, _) = ChainPubkey::find_program_address(
        &[b"metadata", metadata_program.as_ref(), mint.as_ref()],
        &metadata_program,
    );
    assert_eq!(caller.get_metadata(&mint_key), Some(Pubkey(metadata.to_bytes())));
    let (edition, _) = ChainPubkey::find_program_address(
        &[b"metadata", metadata_program.as_ref(), mint.as_ref(), b"edition"],
        &metadata_program,
    );
    assert_eq!(caller.get_edition(&mint_key), Some(Pubkey(edition.to_bytes())));
    let (oracle_config, _) = ChainPubkey::find_program_address(&[b"oracle-config", b"fng"], &monitor);
    assert_eq!(caller.get_oracle_config("fng"), Ok(Pubkey(oracle_config.to_bytes())));
    let (oracle_data, _) = ChainPubkey::find_program_address(&[b"oracle-data", oracle_config.as_ref()], &monitor);
    assert_eq!(caller.get_oracle_data("fng"), Ok(Pubkey(oracle_data.to_bytes())));
    let (event_config, _) = ChainPubkey::find_program_address(&[b"event", oracle_config.as_ref()], &factory);
    assert_eq!(caller.get_event_config("fng"), Ok(Pubkey(event_config.to_bytes())));
    let open_ts: u64 = 1_700_003_601;
    let (market, _) = ChainPubkey::find_program_address(
        &[b"event_market", oracle_config.as_ref(), &open_ts.to_be_bytes()],
        &factory,
    );
    assert_eq!(caller.get_event_market("fng", open_ts), Ok(Pubkey(market.to_bytes())));
    let event_config_key = Pubkey(event_config.to_bytes());
    let (sbt, _) = ChainPubkey::find_program_address(&[b"sbt_mint", event_config.as_ref(), &[2u8]], &factory);
    assert_eq!(caller.get_event_sbt_master_edition_mint(&event_config_key, 2), Ok(Pubkey(sbt.to_bytes())));
    let user = Pubkey([3u8; 32]);
    let (ata, _) = ChainPubkey::find_program_address(
        &[&user.0, chain(&token_2022_id()).as_ref(), mint.as_ref()],
        &chain(&associated_token_id()),
    );
    assert_eq!(caller.get_token_account(&user, &mint_key), Some(Pubkey(ata.to_bytes())));
    let (any, _) = ChainPubkey::find_program_address(&[b"abc"], &factory);
    assert_eq!(EventCaller::get_pda(&factory_id(), &vec![b"abc".to_vec()]), Some(Pubkey(any.to_bytes())));
}

#[test]
fn unreadable_program_id_is_reported() {
    let mut cfg = config("fng", "fear and greed");
    cfg.event.program_id = "not a key".to_string();
    cfg.oracle.program_id = "0OIl".to_string();
    let caller = EventCaller::new(cfg);
    assert_eq!(caller.get_const_name_pda(b"global_config"), Err(AddressError::InvalidProgramId));
    assert_eq!(caller.get_oracle_config("fng"), Err(AddressError::InvalidProgramId));
    let mut long = config("fng", "d");
    long.event.program_id = "1".repeat(45);
    assert_eq!(EventCaller::new(long).get_const_name_pda(b"mint"), Err(AddressError::InvalidProgramId));
}

#[test]
fn explorer_links_name_test_clusters() {
    let mut cfg = config("fng", "d");
    assert_eq!(cfg.solana.explorer_suffix(), "?cluster=devnet");
    cfg.solana.network = "testnet".to_string();
    assert_eq!(cfg.solana.explorer_suffix(), "?cluster=testnet");
    cfg.solana.network = "mainnet".to_string();
    assert_eq!(cfg.solana.explorer_suffix(), "");
    cfg.solana.network = "devnet2".to_string();
    assert_eq!(cfg.solana.explorer_suffix(), "");
}

#[test]
fn overlong_seed_has_no_address() {
    let caller = EventCaller::new(config("fng", "d"));
    assert_eq!(caller.get_const_name_pda(&[7u8; 33]), Err(AddressError::NotFound));
}

#[test]
fn api_answers_the_stored_reading() {
    let (_, value) = record(Some(&oracle_data(61, 1_700_003_600)), None).unwrap();
    match get_oracle_data(lookup(Some(value.as_bytes()))) {
        Ok(ApiOK(Some(f))) => assert_eq!((f.raw_data, f.timestamp, f.authoritative), (61, 1_700_003_600, true)),
        _ => panic!("expected the stored reading"),
    }
    match get_oracle_data(lookup(None)) {
        Err(ApiErr::ErrSystem(None)) => {}
        _ => panic!("expected a failure of the service"),
    }
}

#[test]
fn creation_skips_followed_opening_times() {
    let mut c = Checklist::new();
    assert_eq!(
        creation_step(&c, 7_201, Cadence::Hourly),
        CreationStep::Follow { open_ts: 7_201, close_ts: 10_801 }
    );
    assert_eq!(
        creation_step(&c, 86_400, Cadence::Daily),
        CreationStep::Follow { open_ts: 86_400, close_ts: 172_800 }
    );
    c.track(3_601, 7_201, false);
    assert_eq!(creation_step(&c, 7_201, Cadence::Hourly), CreationStep::Skip);
    assert_eq!(
        creation_step(&c, 3_601, Cadence::Hourly),
        CreationStep::Follow { open_ts: 3_601, close_ts: 7_201 }
    );
}

#[test]
fn missing_market_is_created_with_its_close_as_expiry() {
    assert_eq!(creation_request(3_601, 7_201, false), Some((3_601, 7_201, 7_201)));
    assert_eq!(creation_request(3_601, 7_201, true), None);
}
