//! The records the feeder keeps of oracle readings, keyed by timestamp.
//!
//! A record is stored under the big-endian bytes of its timestamp, so that
//! the store's byte order is the order of time, and holds three little-endian
//! `u64`s: the reading, its timestamp, and 1 when it was read from the chain
//! (0 when it came from the index API).
use vstd::prelude::*;
use vstd::bytes::{spec_u64_to_le_bytes, spec_u64_from_le_bytes, lemma_auto_spec_u64_to_from_le_bytes};
use crate::monitor::state::OracleData;
use crate::seeds::{be_bytes, u64_to_be_bytes};

verus! {

/// A stored record.
#[derive(Clone, Copy, Debug)]
pub struct OracleDataValue {
    pub raw_data: u64,
    pub timestamp: u64,
    pub authoritative: u64,
}

/// A record as the API hands it out.
#[derive(Clone, Copy, Debug)]
pub struct OracleDataFetched {
    pub raw_data: u64,
    pub timestamp: u64,
    pub authoritative: bool,
}

/// A reading of the index API.
#[derive(Clone, Copy, Debug)]
pub struct FearAndGreedApiData {
    pub raw_data: u64,
    pub timestamp: u64,
}

/// Why a store operation failed.
#[derive(Clone, Copy, Debug, PartialEq, Eq)]
pub enum MemDbError {
    /// Neither a chain reading nor an API reading was given.
    UnsupportedParams,
    /// No record lies before the asked time.
    NotFound,
}

/// The text of an error.
pub open spec fn mem_db_error_text(e: MemDbError) -> Seq<char> {
    match e {
        MemDbError::UnsupportedParams => "not supported params"@,
        MemDbError::NotFound => "can not find data from memory db"@,
    }
}

impl MemDbError {
    /// The message of the error.
    pub fn message(&self) -> (s: &'static str)
        ensures
            s@ == mem_db_error_text(*self),
    {
        match self {
            MemDbError::UnsupportedParams => "not supported params",
            MemDbError::NotFound => "can not find data from memory db",
        }
    }
}

/// The length in bytes of a stored record.
pub const RECORD_LEN: usize = 24;

/// The bytes of a record.
pub open spec fn record_bytes(raw_data: u64, timestamp: u64, authoritative: u64) -> Seq<u8> {
    spec_u64_to_le_bytes(raw_data) + spec_u64_to_le_bytes(timestamp) + spec_u64_to_le_bytes(
        authoritative,
    )
}

/// The record that bytes of the right length hold.
pub open spec fn record_of(b: Seq<u8>) -> OracleDataValue {
    OracleDataValue {
        raw_data: spec_u64_from_le_bytes(b.subrange(0, 8)),
        timestamp: spec_u64_from_le_bytes(b.subrange(8, 16)),
        authoritative: spec_u64_from_le_bytes(b.subrange(16, 24)),
    }
}

/// The little-endian bytes of `n`: `zerocopy::byteorder::U64::<LittleEndian>::new`,
/// whose memory is `n` in little-endian order, read out as its byte array.
#[verifier::external_body]
fn le_bytes_of(n: u64) -> (b: [u8; 8])
    ensures
        b@ == spec_u64_to_le_bytes(n),
{
    zerocopy::byteorder::U64::<zerocopy::byteorder::LittleEndian>::new(n).into()
}

/// The `u64` whose little-endian bytes are `b`:
/// `zerocopy::byteorder::U64::<LittleEndian>::from_bytes`, then `get`.
#[verifier::external_body]
fn le_value_of(b: [u8; 8]) -> (n: u64)
    ensures
        n == spec_u64_from_le_bytes(b@),
{
    zerocopy::byteorder::U64::<zerocopy::byteorder::LittleEndian>::from_bytes(b).get()
}

/// Appends the bytes of `a` to `v`.
fn append8(v: &mut Vec<u8>, a: &[u8; 8])
    ensures
        final(v)@ == old(v)@ + a@,
{
    let mut i: usize = 0;
    while i < 8
        invariant
            0 <= i <= 8,
            a@.len() == 8,
            v@ == old(v)@ + a@.subrange(0, i as int),
        decreases 8 - i,
    {
        v.push(a[i]);
        assert(a@.subrange(0, i + 1) =~= a@.subrange(0, i as int).push(a@[i as int]));
        i = i + 1;
    }
    assert(a@.subrange(0, 8) =~= a@);
}

/// The eight bytes of `b` from `start` on.
fn eight_at(b: &[u8], start: usize) -> (a: [u8; 8])
    requires
        start + 8 <= b@.len(),
    ensures
        a@ == b@.subrange(start as int, start + 8),
{
    let a = [
        b[start],
        b[start + 1],
        b[start + 2],
        b[start + 3],
        b[start + 4],
        b[start + 5],
        b[start + 6],
        b[start + 7],
    ];
    assert(a@ =~= b@.subrange(start as int, start + 8));
    a
}

impl OracleDataValue {
    /// The bytes the record is stored as.
    pub fn as_bytes(&self) -> (b: Vec<u8>)
        ensures
            b@ == record_bytes(self.raw_data, self.timestamp, self.authoritative),
            b@.len() == RECORD_LEN,
    {
        proof {
            lemma_auto_spec_u64_to_from_le_bytes();
        }
        let mut b: Vec<u8> = Vec::new();
        append8(&mut b, &le_bytes_of(self.raw_data));
        append8(&mut b, &le_bytes_of(self.timestamp));
        append8(&mut b, &le_bytes_of(self.authoritative));
        assert(b@ =~= record_bytes(self.raw_data, self.timestamp, self.authoritative));
        b
    }

    /// The record that stored bytes hold.
    pub fn from_bytes(b: &[u8]) -> (v: OracleDataValue)
        requires
            b@.len() == RECORD_LEN,
        ensures
            v == record_of(b@),
    {
        OracleDataValue {
            raw_data: le_value_of(eight_at(b, 0)),
            timestamp: le_value_of(eight_at(b, 8)),
            authoritative: le_value_of(eight_at(b, 16)),
        }
    }
}

/// A record and the key it is stored under.
pub open spec fn record_for(oracle_data: Option<OracleData>, api_data: Option<FearAndGreedApiData>) -> Result<
    (u64, OracleDataValue),
    MemDbError,
> {
    match oracle_data {
        Some(d) => Ok(
            (d.timestamp, OracleDataValue { raw_data: d.raw_data, timestamp: d.timestamp, authoritative: 1 }),
        ),
        None => match api_data {
            Some(a) => Ok(
                (a.timestamp, OracleDataValue { raw_data: a.raw_data, timestamp: a.timestamp, authoritative: 0 }),
            ),
            None => Err(MemDbError::UnsupportedParams),
        },
    }
}

/// The record to store for a chain reading or, when there is none, for an
/// API reading, with its timestamp as key; a chain reading is marked
/// authoritative.
pub fn record(oracle_data: Option<&OracleData>, api_data: Option<FearAndGreedApiData>) -> (r: Result<
    (u64, OracleDataValue),
    MemDbError,
>)
    ensures
        r == record_for(
            match oracle_data {
                Some(d) => Some(*d),
                None => None,
            },
            api_data,
        ),
{
    if let Some(oracle_d) = oracle_data {
        Ok(
            (
                oracle_d.timestamp,
                OracleDataValue {
                    raw_data: oracle_d.raw_data,
                    timestamp: oracle_d.timestamp,
                    authoritative: 1,
                },
            ),
        )
    } else if let Some(api_d) = api_data {
        Ok(
            (
                api_d.timestamp,
                OracleDataValue { raw_data: api_d.raw_data, timestamp: api_d.timestamp, authoritative: 0 },
            ),
        )
    } else {
        Err(MemDbError::UnsupportedParams)
    }
}

/// The store key of a timestamp: its big-endian bytes.
pub fn record_key(timestamp: u64) -> (k: Vec<u8>)
    ensures
        k@ == be_bytes(timestamp),
{
    u64_to_be_bytes(timestamp)
}

/// What an upsert leaves under a key: a record already there stays, else
/// the new one is stored.
pub fn merged(existing: Option<Vec<u8>>, fresh: Vec<u8>) -> (v: Vec<u8>)
    ensures
        v@ == match existing {
            Some(e) => e@,
            None => fresh@,
        },
{
    match existing {
        Some(e) => e,
        None => fresh,
    }
}

/// The reading a stored record reports.
pub open spec fn fetched_of(v: OracleDataValue) -> OracleDataFetched {
    OracleDataFetched { raw_data: v.raw_data, timestamp: v.timestamp, authoritative: v.authoritative != 0 }
}

/// The reading that stored bytes report.
pub fn fetched(value: &[u8]) -> (f: OracleDataFetched)
    requires
        value@.len() == RECORD_LEN,
    ensures
        f == fetched_of(record_of(value@)),
{
    let oracle_data = OracleDataValue::from_bytes(value);
    let raw_data = oracle_data.raw_data;
    let timestamp = oracle_data.timestamp;
    let authoritative_u64 = oracle_data.authoritative;
    let mut authoritative = false;
    if authoritative_u64 != 0 {
        authoritative = true;
    }
    OracleDataFetched { raw_data, timestamp, authoritative }
}

/// The answer to a lookup, given the record found before the asked time, if
/// any.
pub fn lookup(found: Option<Vec<u8>>) -> (r: Result<OracleDataFetched, MemDbError>)
    requires
        found matches Some(v) ==> v@.len() == RECORD_LEN,
    ensures
        match found {
            Some(v) => r == Ok::<OracleDataFetched, MemDbError>(fetched_of(record_of(v@))),
            None => r == Err::<OracleDataFetched, MemDbError>(MemDbError::NotFound),
        },
{
    match found {
        Some(v) => Ok(fetched(v.as_slice())),
        None => Err(MemDbError::NotFound),
    }
}

/// A stored record reads back as the record written: its reading, its
/// timestamp, and whether it was authoritative.
pub proof fn law_record_reads_back(v: OracleDataValue)
    ensures
        record_bytes(v.raw_data, v.timestamp, v.authoritative).len() == RECORD_LEN,
        record_of(record_bytes(v.raw_data, v.timestamp, v.authoritative)) == v,
{
    lemma_auto_spec_u64_to_from_le_bytes();
    let b = record_bytes(v.raw_data, v.timestamp, v.authoritative);
    assert(b.subrange(0, 8) =~= spec_u64_to_le_bytes(v.raw_data));
    assert(b.subrange(8, 16) =~= spec_u64_to_le_bytes(v.timestamp));
    assert(b.subrange(16, 24) =~= spec_u64_to_le_bytes(v.authoritative));
}

/// A chain reading, once stored, is read back as that reading, marked
/// authoritative, under its own timestamp.
pub proof fn law_chain_reading_reads_back(d: OracleData, api_data: Option<FearAndGreedApiData>)
    ensures
        ({
            let r = record_for(Some(d), api_data);
            &&& r is Ok
            &&& r->Ok_0.0 == d.timestamp
            &&& fetched_of(record_of(record_bytes(r->Ok_0.1.raw_data, r->Ok_0.1.timestamp, r->Ok_0.1.authoritative)))
                == (OracleDataFetched { raw_data: d.raw_data, timestamp: d.timestamp, authoritative: true })
        }),
{
    law_record_reads_back(OracleDataValue { raw_data: d.raw_data, timestamp: d.timestamp, authoritative: 1 });
}

/// An API reading, once stored, is read back as that reading, not marked
/// authoritative, under its own timestamp.
pub proof fn law_api_reading_reads_back(a: FearAndGreedApiData)
    ensures
        ({
            let r = record_for(None, Some(a));
            &&& r is Ok
            &&& r->Ok_0.0 == a.timestamp
            &&& fetched_of(record_of(record_bytes(r->Ok_0.1.raw_data, r->Ok_0.1.timestamp, r->Ok_0.1.authoritative)))
                == (OracleDataFetched { raw_data: a.raw_data, timestamp: a.timestamp, authoritative: false })
        }),
{
    law_record_reads_back(OracleDataValue { raw_data: a.raw_data, timestamp: a.timestamp, authoritative: 0 });
}

} // verus!
