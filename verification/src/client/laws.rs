//! Laws of the feeding and market loops.
use vstd::prelude::*;
use crate::client::api::oracle_data_answer;
use crate::client::decimal::parsed_u64;
use crate::client::event_manager::{Event, fetched_at, followed, refine_plan_spec, resolved_at, unresolved};
use crate::client::feeder::{fresh_spec, request_spec};
use crate::client::mem_db::{OracleDataFetched, MemDbError, OracleDataValue, fetched_of, law_record_reads_back, record_bytes, record_of};
use crate::client::response::{ApiErr, ApiOK};
use crate::client::oracle::OracleDataRequest;
use crate::factory::utils::oracle_data_address;
use crate::monitor::instructions::set_oracle_data_spec;
use crate::monitor::state::{OracleConfigView, OracleData};
use crate::pubkey::Pubkey;

verus! {

/// A reading is submitted to the oracle only when it is newer than the
/// last reading the loop acted on and than the chain's latest reading; it
/// carries the index value, no decimals, and phase 1 exactly when the value
/// did not fall below the chain's reading.
pub proof fn law_submitted_reading_is_newer(
    latest: u64,
    ts_text: Seq<char>,
    value_text: Seq<char>,
    chain: OracleData,
)
    ensures
        ({
            let fresh = fresh_spec(latest, ts_text);
            fresh matches Ok(Some(ts)) ==> {
                &&& ts > latest
                &&& request_spec(ts, value_text, chain) matches Ok(Some(req)) ==> {
                    &&& ts > chain.timestamp
                    &&& parsed_u64(value_text) == Some(req.raw_data)
                    &&& req.decimals == 0
                    &&& (req.phase == 1 <==> req.raw_data >= chain.raw_data)
                    &&& (req.phase == 0 <==> req.raw_data < chain.raw_data)
                }
            }
        }),
{
}

/// The refining pass resolves a market only once it has closed and only if
/// it is not resolved, and makes it take the reading only once it has
/// opened and only if it has not.
pub proof fn law_resolution_waits_for_close(event: Event, now: i64)
    ensures
        refine_plan_spec(event, now).resolve ==> (now as u64) > event.close_ts && (now as u64)
            > event.open_ts && !event.resolved,
        refine_plan_spec(event, now).toggle ==> (now as u64) > event.open_ts && !event.fetched,
{
}

/// A market that is resolved stops being followed when the resolved
/// markets are dropped, while every other unresolved market stays,
/// unchanged.
pub proof fn law_resolved_market_is_dropped(m: Map<u64, Event>, key: u64)
    requires
        m.contains_key(key),
    ensures
        !unresolved(resolved_at(m, key)).contains_key(key),
        forall|k: u64|
            k != key && m.contains_key(k) && !m[k].resolved ==> #[trigger] unresolved(
                resolved_at(m, key),
            ).contains_key(k) && unresolved(resolved_at(m, key))[k] == m[k],
{
}

/// Marking a market as having taken the reading keeps it followed and
/// unresolved if it was, and leaves the other markets as they were.
pub proof fn law_fetch_mark_keeps_market(m: Map<u64, Event>, key: u64)
    requires
        m.contains_key(key),
    ensures
        fetched_at(m, key).contains_key(key),
        fetched_at(m, key)[key].fetched,
        fetched_at(m, key)[key].resolved == m[key].resolved,
        fetched_at(m, key)[key].close_ts == m[key].close_ts,
        forall|k: u64| k != key ==> #[trigger] fetched_at(m, key).contains_key(k) == m.contains_key(k),
{
}

/// A newly followed market is followed under its close time, opened and
/// not resolved.
pub proof fn law_followed_market_is_open(m: Map<u64, Event>, open_ts: u64, close_ts: u64, fetched: bool)
    ensures
        m.insert(close_ts, followed(open_ts, close_ts, fetched)).contains_key(close_ts),
        m.insert(close_ts, followed(open_ts, close_ts, fetched))[close_ts].opened,
        !m.insert(close_ts, followed(open_ts, close_ts, fetched))[close_ts].resolved,
        !unresolved(m.insert(close_ts, followed(open_ts, close_ts, fetched))).dom().is_empty(),
{
    let m2 = m.insert(close_ts, followed(open_ts, close_ts, fetched));
    assert(unresolved(m2).contains_key(close_ts));
}

/// The API answers a lookup that finds a stored chain reading with that
/// reading, marked authoritative.
pub proof fn law_api_answers_stored_chain_reading(
    d: OracleData,
    r: Result<ApiOK<OracleDataFetched>, ApiErr>,
)
    requires
        oracle_data_answer(
            Ok::<OracleDataFetched, MemDbError>(fetched_of(record_of(record_bytes(d.raw_data, d.timestamp, 1)))),
            r,
        ),
    ensures
        r matches Ok(ok) && ok.0 == Some(
            OracleDataFetched { raw_data: d.raw_data, timestamp: d.timestamp, authoritative: true },
        ),
{
    law_record_reads_back(OracleDataValue { raw_data: d.raw_data, timestamp: d.timestamp, authoritative: 1 });
}

/// A reading the feeder decides to submit, once set by an authority of a
/// configuration with at least two phases, at a positive time, with the data
/// account at its derived address and its own bump, becomes the oracle's
/// data: the submitted value, phase and decimals, stamped with that time and
/// slot.
pub proof fn law_submitted_reading_is_stored(
    config: OracleConfigView,
    config_key: Pubkey,
    oracle: OracleData,
    oracle_key: Pubkey,
    user: Seq<u8>,
    ts: u64,
    value_text: Seq<char>,
    req: OracleDataRequest,
    slot: u64,
    now: i64,
)
    requires
        request_spec(ts, value_text, oracle) == Ok::<Option<OracleDataRequest>, crate::client::feeder::FeedError>(
            Some(req),
        ),
        config.holds_authority(user),
        config.total_phases >= 2,
        oracle.config == config_key,
        oracle_data_address(config_key@) == Some(oracle_key@),
        now > 0,
    ensures
        set_oracle_data_spec(config, config_key, oracle, oracle_key, user, req.phase, req.raw_data, req.decimals,
            oracle.bump, slot, now) matches Ok((d, _)) && d.raw_data == req.raw_data && d.phase == req.phase
            && d.decimals == 0 && d.timestamp == now as u64 && d.slot == slot && d.config == oracle.config,
{
}

/// The feeder acts on an index reading exactly when its timestamp is newer
/// than the last one it acted on: a parsable timestamp is taken as fresh if
/// and only if it is greater, and passed over otherwise; an unparsable one
/// is an error.
pub proof fn law_fresh_reading_is_exactly_a_newer_one(latest: u64, ts_text: Seq<char>)
    ensures
        parsed_u64(ts_text) matches Some(ts) ==> {
            &&& (fresh_spec(latest, ts_text) == Ok::<Option<u64>, crate::client::feeder::FeedError>(Some(ts)) <==> ts > latest)
            &&& (fresh_spec(latest, ts_text) == Ok::<Option<u64>, crate::client::feeder::FeedError>(None) <==> ts <= latest)
        },
        parsed_u64(ts_text) is None ==> fresh_spec(latest, ts_text) is Err,
{
}

} // verus!
