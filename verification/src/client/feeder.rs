//! The decisions of the feeding loop: when a fresh index reading is
//! submitted to the oracle, with which phase, and which earlier readings are
//! recorded at start-up.
use vstd::prelude::*;
use crate::client::decimal::{parse_u64, parsed_u64};
use crate::client::fetcher::IndexData;
use crate::client::mem_db::FearAndGreedApiData;
use crate::client::oracle::OracleDataRequest;
use crate::monitor::state::OracleData;

verus! {

/// A reading of the index API whose text is not a number.
#[derive(Clone, Copy, Debug, PartialEq, Eq)]
pub enum FeedError {
    InvalidTimestamp,
    InvalidValue,
}

/// The phase submitted with a reading: 1 when it did not fall below the
/// chain's latest reading, else 0.
pub open spec fn phase_for(value: u64, chain_raw_data: u64) -> u8 {
    if value >= chain_raw_data {
        1
    } else {
        0
    }
}

/// What the feeder submits for an index reading taken at `ts`, given the
/// chain's latest reading: nothing when the chain is as recent, else the
/// reading's value with its phase and no decimals.
pub open spec fn request_spec(ts: u64, value: Seq<char>, chain: OracleData) -> Result<
    Option<OracleDataRequest>,
    FeedError,
> {
    if ts > chain.timestamp {
        match parsed_u64(value) {
            None => Err(FeedError::InvalidValue),
            Some(v) => Ok(
                Some(OracleDataRequest { phase: phase_for(v, chain.raw_data), raw_data: v, decimals: 0 }),
            ),
        }
    } else {
        Ok(None)
    }
}

/// The timestamp of an index reading whose timestamp text is `ts_text`,
/// when it is newer than `latest`.
pub open spec fn fresh_spec(latest: u64, ts_text: Seq<char>) -> Result<Option<u64>, FeedError> {
    match parsed_u64(ts_text) {
        None => Err(FeedError::InvalidTimestamp),
        Some(ts) => Ok(
            if ts > latest {
                Some(ts)
            } else {
                None
            },
        ),
    }
}

/// What the feeding loop remembers between rounds: the timestamp of the
/// last index reading it acted on.
#[derive(Clone, Copy, Debug)]
pub struct FeedState {
    pub latest_timestamp: u64,
}

impl FeedState {
    /// The state before the first round.
    pub fn new() -> (s: FeedState)
        ensures
            s.latest_timestamp == 0,
    {
        FeedState { latest_timestamp: 0 }
    }

    /// The timestamp of `index` when it is newer than the last reading acted
    /// on; `None` when it is not; an error when its timestamp is not a
    /// number.
    pub fn fresh_timestamp(&self, index: &IndexData) -> (r: Result<Option<u64>, FeedError>)
        ensures
            r == fresh_spec(self.latest_timestamp, index.timestamp@),
    {
        match parse_u64(index.timestamp.as_str()) {
            None => Err(FeedError::InvalidTimestamp),
            Some(ts) => if ts > self.latest_timestamp {
                Ok(Some(ts))
            } else {
                Ok(None)
            },
        }
    }

    /// Records that the reading at `ts` was acted on.
    pub fn advance(&mut self, ts: u64)
        requires
            ts > old(self).latest_timestamp,
        ensures
            final(self).latest_timestamp == ts,
    {
        self.latest_timestamp = ts;
    }
}

/// The request to submit for the index reading `index`, taken at `ts`, given
/// the chain's latest reading `chain`.
pub fn oracle_request(ts: u64, index: &IndexData, chain: &OracleData) -> (r: Result<
    Option<OracleDataRequest>,
    FeedError,
>)
    ensures
        r == request_spec(ts, index.value@, *chain),
{
    if ts > chain.timestamp {
        match parse_u64(index.value.as_str()) {
            None => Err(FeedError::InvalidValue),
            Some(latest_raw_data) => {
                let raw_data = latest_raw_data;
                let decimals: u8 = 0;
                let phase: u8 = if latest_raw_data >= chain.raw_data {
                    1
                } else {
                    0
                };
                Ok(Some(OracleDataRequest { phase, raw_data, decimals }))
            },
        }
    } else {
        Ok(None)
    }
}

/// The earlier readings recorded at start-up, and the error that stopped
/// the pass, if one did.
pub struct EarlierData {
    pub records: Vec<FearAndGreedApiData>,
    pub error: Option<FeedError>,
}

/// The readings among `indexes`, in order, that are older than `latest`,
/// as records; the pass stops at the first reading whose timestamp, or whose
/// value when it is older, is not a number.
pub open spec fn earlier_spec(indexes: Seq<IndexData>, latest: u64) -> (Seq<FearAndGreedApiData>, Option<
    FeedError,
>)
    decreases indexes.len(),
{
    if indexes.len() == 0 {
        (Seq::empty(), None)
    } else {
        let (done, err) = earlier_spec(indexes.drop_last(), latest);
        let index = indexes.last();
        if err is Some {
            (done, err)
        } else {
            match parsed_u64(index.timestamp@) {
                None => (done, Some(FeedError::InvalidTimestamp)),
                Some(ts) => if ts < latest {
                    match parsed_u64(index.value@) {
                        None => (done, Some(FeedError::InvalidValue)),
                        Some(v) => (done.push(FearAndGreedApiData { raw_data: v, timestamp: ts }), None),
                    }
                } else {
                    (done, None)
                },
            }
        }
    }
}

/// The readings of the index history older than the chain's latest
/// reading, taken at `latest`, to record before the loop starts.
pub fn earlier_data(indexes: &Vec<IndexData>, latest: u64) -> (r: EarlierData)
    ensures
        (r.records@, r.error) == earlier_spec(indexes@, latest),
{
    let mut records: Vec<FearAndGreedApiData> = Vec::new();
    let mut i: usize = 0;
    while i < indexes.len()
        invariant
            0 <= i <= indexes@.len(),
            (records@, None::<FeedError>) == earlier_spec(indexes@.subrange(0, i as int), latest),
        decreases indexes@.len() - i,
    {
        let index = &indexes[i];
        let ghost pre = indexes@.subrange(0, i as int);
        assert(indexes@.subrange(0, i + 1).drop_last() =~= pre);
        assert(indexes@.subrange(0, i + 1).last() == indexes@[i as int]);
        let timestamp = match parse_u64(index.timestamp.as_str()) {
            None => {
                proof {
                    lemma_earlier_stops(indexes@, latest, i as int);
                }
                return EarlierData { records, error: Some(FeedError::InvalidTimestamp) };
            },
            Some(ts) => ts,
        };
        if timestamp < latest {
            match parse_u64(index.value.as_str()) {
                None => {
                    proof {
                        lemma_earlier_stops(indexes@, latest, i as int);
                    }
                    return EarlierData { records, error: Some(FeedError::InvalidValue) };
                },
                Some(raw_data) => {
                    records.push(FearAndGreedApiData { raw_data, timestamp });
                },
            }
        }
        i = i + 1;
    }
    assert(indexes@.subrange(0, indexes@.len() as int) =~= indexes@);
    EarlierData { records, error: None }
}

/// Once the pass has stopped on a prefix, it stays stopped with the same
/// records on every longer prefix.
proof fn lemma_earlier_stops(indexes: Seq<IndexData>, latest: u64, k: int)
    requires
        0 <= k < indexes.len(),
        earlier_spec(indexes.subrange(0, k + 1), latest).1 is Some,
    ensures
        earlier_spec(indexes, latest) == earlier_spec(indexes.subrange(0, k + 1), latest),
    decreases indexes.len() - k,
{
    if k + 1 < indexes.len() {
        let p = indexes.subrange(0, k + 2);
        assert(p.drop_last() =~= indexes.subrange(0, k + 1));
        lemma_earlier_stops(indexes, latest, k + 1);
    } else {
        assert(indexes.subrange(0, k + 1) =~= indexes);
    }
}

} // verus!
