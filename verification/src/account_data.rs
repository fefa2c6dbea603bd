//! Reading the stored data of the programs' accounts, as Anchor stores it:
//! the account's 8-byte discriminator, then its fields in Borsh encoding
//! (integers little-endian, `bool` as 0 or 1, `Option` as a 0 or 1 tag
//! followed by the value when 1). Bytes after the fields are ignored.
use vstd::prelude::*;
use vstd::bytes::{spec_u32_from_le_bytes, spec_u64_from_le_bytes, spec_u64_to_le_bytes, u32_from_le_bytes, u64_from_le_bytes,
    lemma_auto_spec_u64_to_from_le_bytes};
use vstd::utf8::{decode_utf8, encode_utf8, valid_utf8};
use crate::factory::state::event_market::EventMarket;
use crate::monitor::state::{OracleConfig, OracleConfigView, OracleData};
use crate::pubkey::Pubkey;

verus! {

broadcast use vstd::array::group_array_axioms;

/// Why account data could not be read.
#[derive(Clone, Copy, Debug, PartialEq, Eq)]
pub enum AccountError {
    /// The data is shorter than a discriminator.
    AccountDiscriminatorNotFound,
    /// The data is of another kind of account.
    AccountDiscriminatorMismatch,
    /// The fields could not be read.
    AccountDidNotDeserialize,
}

/// The byte at `p`, and the position after it.
pub open spec fn u8_at(b: Seq<u8>, p: int) -> Option<(u8, int)> {
    if 0 <= p < b.len() {
        Some((b[p], p + 1))
    } else {
        None
    }
}

/// The little-endian `u64` at `p`, and the position after it.
pub open spec fn u64_at(b: Seq<u8>, p: int) -> Option<(u64, int)> {
    if 0 <= p && p + 8 <= b.len() {
        Some((spec_u64_from_le_bytes(b.subrange(p, p + 8)), p + 8))
    } else {
        None
    }
}

/// The 32-byte address at `p`, and the position after it.
pub open spec fn key_at(b: Seq<u8>, p: int) -> Option<(Seq<u8>, int)> {
    if 0 <= p && p + 32 <= b.len() {
        Some((b.subrange(p, p + 32), p + 32))
    } else {
        None
    }
}

/// The `bool` at `p`: a byte that is 0 or 1.
pub open spec fn bool_at(b: Seq<u8>, p: int) -> Option<(bool, int)> {
    match u8_at(b, p) {
        Some((v, q)) => if v == 0 {
            Some((false, q))
        } else if v == 1 {
            Some((true, q))
        } else {
            None
        },
        None => None,
    }
}

/// The optional `u64` at `p`: a tag 0, or a tag 1 and the value.
pub open spec fn opt_u64_at(b: Seq<u8>, p: int) -> Option<(Option<u64>, int)> {
    match u8_at(b, p) {
        Some((t, q)) => if t == 0 {
            Some((None, q))
        } else if t == 1 {
            match u64_at(b, q) {
                Some((v, r)) => Some((Some(v), r)),
                None => None,
            }
        } else {
            None
        },
        None => None,
    }
}

/// The optional byte at `p`: a tag 0, or a tag 1 and the byte.
pub open spec fn opt_u8_at(b: Seq<u8>, p: int) -> Option<(Option<u8>, int)> {
    match u8_at(b, p) {
        Some((t, q)) => if t == 0 {
            Some((None, q))
        } else if t == 1 {
            match u8_at(b, q) {
                Some((v, r)) => Some((Some(v), r)),
                None => None,
            }
        } else {
            None
        },
        None => None,
    }
}

/// The outcome of reading an account of the kind with discriminator `disc`
/// whose fields read as `fields`.
pub open spec fn account_outcome<R>(b: Seq<u8>, disc: Seq<u8>, fields: Option<R>) -> Result<R, AccountError> {
    if b.len() < 8 {
        Err(AccountError::AccountDiscriminatorNotFound)
    } else if b.subrange(0, 8) != disc {
        Err(AccountError::AccountDiscriminatorMismatch)
    } else {
        match fields {
            Some(r) => Ok(r),
            None => Err(AccountError::AccountDidNotDeserialize),
        }
    }
}

fn read_u8(b: &[u8], p: usize) -> (r: Option<(u8, usize)>)
    ensures
        match r {
            Some((v, q)) => u8_at(b@, p as int) == Some((v, q as int)),
            None => u8_at(b@, p as int) is None,
        },
{
    if p < b.len() {
        Some((b[p], p + 1))
    } else {
        None
    }
}

fn read_u64(b: &[u8], p: usize) -> (r: Option<(u64, usize)>)
    ensures
        match r {
            Some((v, q)) => u64_at(b@, p as int) == Some((v, q as int)),
            None => u64_at(b@, p as int) is None,
        },
{
    if p <= b.len() && b.len() - p >= 8 {
        let mut word: Vec<u8> = Vec::new();
        let mut i: usize = p;
        let end: usize = p + 8;
        while i < end
            invariant
                end == p + 8,
                p <= i <= p + 8,
                p + 8 <= b@.len(),
                word@ == b@.subrange(p as int, i as int),
            decreases end - i,
        {
            word.push(b[i]);
            assert(b@.subrange(p as int, i + 1) =~= b@.subrange(p as int, i as int).push(b@[i as int]));
            i = i + 1;
        }
        Some((u64_from_le_bytes(word.as_slice()), p + 8))
    } else {
        None
    }
}

fn read_key(b: &[u8], p: usize) -> (r: Option<(Pubkey, usize)>)
    ensures
        match r {
            Some((k, q)) => key_at(b@, p as int) == Some((k@, q as int)),
            None => key_at(b@, p as int) is None,
        },
{
    if p <= b.len() && b.len() - p >= 32 {
        let mut a = [0u8; 32];
        let mut i: usize = 0;
        let end: usize = p + 32;
        while i < 32
            invariant
                end == p + 32,
                0 <= i <= 32,
                p + 32 <= b@.len(),
                forall|j: int| 0 <= j < i ==> a@[j] == b@[p + j],
            decreases 32 - i,
        {
            a.set(i, b[p + i]);
            i = i + 1;
        }
        assert(a@ =~= b@.subrange(p as int, p + 32));
        Some((Pubkey(a), p + 32))
    } else {
        None
    }
}

fn read_bool(b: &[u8], p: usize) -> (r: Option<(bool, usize)>)
    ensures
        match r {
            Some((v, q)) => bool_at(b@, p as int) == Some((v, q as int)),
            None => bool_at(b@, p as int) is None,
        },
{
    match read_u8(b, p) {
        Some((v, q)) => if v == 0 {
            Some((false, q))
        } else if v == 1 {
            Some((true, q))
        } else {
            None
        },
        None => None,
    }
}

fn read_opt_u64(b: &[u8], p: usize) -> (r: Option<(Option<u64>, usize)>)
    ensures
        match r {
            Some((v, q)) => opt_u64_at(b@, p as int) == Some((v, q as int)),
            None => opt_u64_at(b@, p as int) is None,
        },
{
    match read_u8(b, p) {
        Some((t, q)) => if t == 0 {
            Some((None, q))
        } else if t == 1 {
            match read_u64(b, q) {
                Some((v, r)) => Some((Some(v), r)),
                None => None,
            }
        } else {
            None
        },
        None => None,
    }
}

fn read_opt_u8(b: &[u8], p: usize) -> (r: Option<(Option<u8>, usize)>)
    ensures
        match r {
            Some((v, q)) => opt_u8_at(b@, p as int) == Some((v, q as int)),
            None => opt_u8_at(b@, p as int) is None,
        },
{
    match read_u8(b, p) {
        Some((t, q)) => if t == 0 {
            Some((None, q))
        } else if t == 1 {
            match read_u8(b, q) {
                Some((v, r)) => Some((Some(v), r)),
                None => None,
            }
        } else {
            None
        },
        None => None,
    }
}

/// Whether the first 8 bytes of `b` are `disc`.
fn has_discriminator(b: &[u8], disc: &[u8; 8]) -> (r: bool)
    requires
        b@.len() >= 8,
    ensures
        r == (b@.subrange(0, 8) == disc@),
{
    let mut i: usize = 0;
    while i < 8
        invariant
            0 <= i <= 8,
            b@.len() >= 8,
            disc@.len() == 8,
            forall|j: int| 0 <= j < i ==> b@[j] == disc@[j],
        decreases 8 - i,
    {
        if b[i] != disc[i] {
            assert(b@.subrange(0, 8)[i as int] != disc@[i as int]);
            return false;
        }
        i = i + 1;
    }
    assert(b@.subrange(0, 8) =~= disc@);
    true
}

/// The discriminator of oracle data accounts: the first 8 bytes of the
/// SHA-256 hash of `account:OracleData`.
pub open spec fn oracle_data_discriminator() -> Seq<u8> {
    seq![26u8, 131, 25, 110, 6, 141, 10, 37]
}

/// The discriminator of market accounts: the first 8 bytes of the SHA-256
/// hash of `account:EventMarket`.
pub open spec fn event_market_discriminator() -> Seq<u8> {
    seq![247u8, 24, 47, 173, 251, 86, 156, 192]
}

/// The fields of oracle data, with the configuration as its bytes.
pub struct OracleDataFields {
    pub config: Seq<u8>,
    pub phase: u8,
    pub raw_data: u64,
    pub decimals: u8,
    pub previous_timestamp: u64,
    pub timestamp: u64,
    pub slot: u64,
    pub bump: u8,
}

/// The fields of `d`.
pub open spec fn oracle_data_view(d: OracleData) -> OracleDataFields {
    OracleDataFields {
        config: d.config@,
        phase: d.phase,
        raw_data: d.raw_data,
        decimals: d.decimals,
        previous_timestamp: d.previous_timestamp,
        timestamp: d.timestamp,
        slot: d.slot,
        bump: d.bump,
    }
}

/// The oracle data that the fields from position 8 of `b` hold.
pub open spec fn oracle_data_fields(b: Seq<u8>) -> Option<OracleDataFields> {
    match key_at(b, 8) {
        None => None,
        Some((config, p1)) => match u8_at(b, p1) {
            None => None,
            Some((phase, p2)) => match u64_at(b, p2) {
                None => None,
                Some((raw_data, p3)) => match u8_at(b, p3) {
                    None => None,
                    Some((decimals, p4)) => match u64_at(b, p4) {
                        None => None,
                        Some((previous_timestamp, p5)) => match u64_at(b, p5) {
                            None => None,
                            Some((timestamp, p6)) => match u64_at(b, p6) {
                                None => None,
                                Some((slot, p7)) => match u8_at(b, p7) {
                                    None => None,
                                    Some((bump, _)) => Some(
                                        OracleDataFields {
                                            config,
                                            phase,
                                            raw_data,
                                            decimals,
                                            previous_timestamp,
                                            timestamp,
                                            slot,
                                            bump,
                                        },
                                    ),
                                },
                            },
                        },
                    },
                },
            },
        },
    }
}

/// The fields of a market, with its event configuration as its bytes.
pub struct EventMarketFields {
    pub event_config: Seq<u8>,
    pub open_raw_data: Option<u64>,
    pub open_phase: Option<u8>,
    pub option: u8,
    pub result: u8,
    pub prize: u64,
    pub open_slot: u64,
    pub open_ts: u64,
    pub close_ts: u64,
    pub expiry_ts: u64,
    pub is_opened: bool,
    pub bump: u8,
}

/// The fields of `m`.
pub open spec fn event_market_view(m: EventMarket) -> EventMarketFields {
    EventMarketFields {
        event_config: m.event_config@,
        open_raw_data: m.open_raw_data,
        open_phase: m.open_phase,
        option: m.option,
        result: m.result,
        prize: m.prize,
        open_slot: m.open_slot,
        open_ts: m.open_ts,
        close_ts: m.close_ts,
        expiry_ts: m.expiry_ts,
        is_opened: m.is_opened,
        bump: m.bump,
    }
}

/// The times and flags of a market read from position `p` of `b`, after
/// its prize: open slot, open, close and expiry times, whether it is
/// opened, and its bump.
pub open spec fn market_tail_at(b: Seq<u8>, p: int) -> Option<(u64, u64, u64, u64, bool, u8)> {
    match u64_at(b, p) {
        None => None,
        Some((open_slot, p1)) => match u64_at(b, p1) {
            None => None,
            Some((open_ts, p2)) => match u64_at(b, p2) {
                None => None,
                Some((close_ts, p3)) => match u64_at(b, p3) {
                    None => None,
                    Some((expiry_ts, p4)) => match bool_at(b, p4) {
                        None => None,
                        Some((is_opened, p5)) => match u8_at(b, p5) {
                            None => None,
                            Some((bump, _)) => Some((open_slot, open_ts, close_ts, expiry_ts, is_opened, bump)),
                        },
                    },
                },
            },
        },
    }
}

/// The market that the fields from position 8 of `b` hold.
pub open spec fn event_market_fields(b: Seq<u8>) -> Option<EventMarketFields> {
    match key_at(b, 8) {
        None => None,
        Some((event_config, p1)) => match opt_u64_at(b, p1) {
            None => None,
            Some((open_raw_data, p2)) => match opt_u8_at(b, p2) {
                None => None,
                Some((open_phase, p3)) => match u8_at(b, p3) {
                    None => None,
                    Some((option, p4)) => match u8_at(b, p4) {
                        None => None,
                        Some((result, p5)) => match u64_at(b, p5) {
                            None => None,
                            Some((prize, p6)) => match market_tail_at(b, p6) {
                                None => None,
                                Some((open_slot, open_ts, close_ts, expiry_ts, is_opened, bump)) => Some(
                                    EventMarketFields {
                                        event_config,
                                        open_raw_data,
                                        open_phase,
                                        option,
                                        result,
                                        prize,
                                        open_slot,
                                        open_ts,
                                        close_ts,
                                        expiry_ts,
                                        is_opened,
                                        bump,
                                    },
                                ),
                            },
                        },
                    },
                },
            },
        },
    }
}

/// The view of a read account.
pub open spec fn read_view<T, R>(r: Result<T, AccountError>, view: spec_fn(T) -> R) -> Result<R, AccountError> {
    match r {
        Ok(t) => Ok(view(t)),
        Err(e) => Err(e),
    }
}

impl OracleData {
    /// Reads oracle data from the stored bytes of its account.
    pub fn try_deserialize(buf: &[u8]) -> (r: Result<OracleData, AccountError>)
        ensures
            read_view(r, |d: OracleData| oracle_data_view(d)) == account_outcome(
                buf@,
                oracle_data_discriminator(),
                oracle_data_fields(buf@),
            ),
    {
        if buf.len() < 8 {
            return Err(AccountError::AccountDiscriminatorNotFound);
        }
        let disc: [u8; 8] = [26u8, 131, 25, 110, 6, 141, 10, 37];
        assert(disc@ =~= oracle_data_discriminator());
        if !has_discriminator(buf, &disc) {
            return Err(AccountError::AccountDiscriminatorMismatch);
        }
        let failed = Err(AccountError::AccountDidNotDeserialize);
        let (config, p1) = match read_key(buf, 8) { Some(x) => x, None => return failed };
        let (phase, p2) = match read_u8(buf, p1) { Some(x) => x, None => return failed };
        let (raw_data, p3) = match read_u64(buf, p2) { Some(x) => x, None => return failed };
        let (decimals, p4) = match read_u8(buf, p3) { Some(x) => x, None => return failed };
        let (previous_timestamp, p5) = match read_u64(buf, p4) { Some(x) => x, None => return failed };
        let (timestamp, p6) = match read_u64(buf, p5) { Some(x) => x, None => return failed };
        let (slot, p7) = match read_u64(buf, p6) { Some(x) => x, None => return failed };
        let (bump, _) = match read_u8(buf, p7) { Some(x) => x, None => return failed };
        Ok(OracleData { config, phase, raw_data, decimals, previous_timestamp, timestamp, slot, bump })
    }
}

/// Reads the times and flags of a market from position `p`.
fn read_market_tail(b: &[u8], p: usize) -> (r: Option<(u64, u64, u64, u64, bool, u8)>)
    ensures
        r == market_tail_at(b@, p as int),
{
    let (open_slot, p1) = match read_u64(b, p) { Some(x) => x, None => return None };
    let (open_ts, p2) = match read_u64(b, p1) { Some(x) => x, None => return None };
    let (close_ts, p3) = match read_u64(b, p2) { Some(x) => x, None => return None };
    let (expiry_ts, p4) = match read_u64(b, p3) { Some(x) => x, None => return None };
    let (is_opened, p5) = match read_bool(b, p4) { Some(x) => x, None => return None };
    let (bump, _) = match read_u8(b, p5) { Some(x) => x, None => return None };
    Some((open_slot, open_ts, close_ts, expiry_ts, is_opened, bump))
}

impl EventMarket {
    /// Reads a market from the stored bytes of its account.
    pub fn try_deserialize(buf: &[u8]) -> (r: Result<EventMarket, AccountError>)
        ensures
            read_view(r, |m: EventMarket| event_market_view(m)) == account_outcome(
                buf@,
                event_market_discriminator(),
                event_market_fields(buf@),
            ),
    {
        if buf.len() < 8 {
            return Err(AccountError::AccountDiscriminatorNotFound);
        }
        let disc: [u8; 8] = [247u8, 24, 47, 173, 251, 86, 156, 192];
        assert(disc@ =~= event_market_discriminator());
        if !has_discriminator(buf, &disc) {
            return Err(AccountError::AccountDiscriminatorMismatch);
        }
        let failed = Err(AccountError::AccountDidNotDeserialize);
        let (event_config, p1) = match read_key(buf, 8) { Some(x) => x, None => return failed };
        let (open_raw_data, p2) = match read_opt_u64(buf, p1) { Some(x) => x, None => return failed };
        let (open_phase, p3) = match read_opt_u8(buf, p2) { Some(x) => x, None => return failed };
        let (option, p4) = match read_u8(buf, p3) { Some(x) => x, None => return failed };
        let (result, p5) = match read_u8(buf, p4) { Some(x) => x, None => return failed };
        let (prize, p6) = match read_u64(buf, p5) { Some(x) => x, None => return failed };
        let (open_slot, open_ts, close_ts, expiry_ts, is_opened, bump) = match read_market_tail(buf, p6) {
            Some(x) => x,
            None => return failed,
        };
        Ok(
            EventMarket {
                event_config,
                open_raw_data,
                open_phase,
                option,
                result,
                prize,
                open_slot,
                open_ts,
                close_ts,
                expiry_ts,
                is_opened,
                bump,
            },
        )
    }
}

/// The bytes an oracle data account stores for `d`.
pub open spec fn oracle_data_bytes(d: OracleData) -> Seq<u8> {
    oracle_data_discriminator() + d.config@ + seq![d.phase] + spec_u64_to_le_bytes(d.raw_data) + seq![d.decimals]
        + spec_u64_to_le_bytes(d.previous_timestamp) + spec_u64_to_le_bytes(d.timestamp) + spec_u64_to_le_bytes(d.slot)
        + seq![d.bump]
}

/// Oracle data, once stored, reads back as itself, whatever follows it in
/// the account.
pub proof fn law_oracle_data_reads_back(d: OracleData, rest: Seq<u8>)
    ensures
        account_outcome(
            oracle_data_bytes(d) + rest,
            oracle_data_discriminator(),
            oracle_data_fields(oracle_data_bytes(d) + rest),
        ) == Ok::<OracleDataFields, AccountError>(oracle_data_view(d)),
{
    lemma_auto_spec_u64_to_from_le_bytes();
    let b = oracle_data_bytes(d) + rest;
    assert(d.config@.len() == 32);
    assert(b.subrange(0, 8) =~= oracle_data_discriminator());
    assert(b.subrange(8, 40) =~= d.config@);
    assert(b[40] == d.phase);
    assert(b.subrange(41, 49) =~= spec_u64_to_le_bytes(d.raw_data));
    assert(b[49] == d.decimals);
    assert(b.subrange(50, 58) =~= spec_u64_to_le_bytes(d.previous_timestamp));
    assert(b.subrange(58, 66) =~= spec_u64_to_le_bytes(d.timestamp));
    assert(b.subrange(66, 74) =~= spec_u64_to_le_bytes(d.slot));
    assert(b[74] == d.bump);
}

/// The Borsh bytes of an optional `u64`.
pub open spec fn opt_u64_bytes(v: Option<u64>) -> Seq<u8> {
    match v {
        Some(x) => seq![1u8] + spec_u64_to_le_bytes(x),
        None => seq![0u8],
    }
}

/// The Borsh bytes of an optional byte.
pub open spec fn opt_u8_bytes(v: Option<u8>) -> Seq<u8> {
    match v {
        Some(x) => seq![1u8, x],
        None => seq![0u8],
    }
}

/// The bytes a market account stores for `m`.
pub open spec fn event_market_bytes(m: EventMarket) -> Seq<u8> {
    event_market_discriminator() + m.event_config@ + opt_u64_bytes(m.open_raw_data) + opt_u8_bytes(m.open_phase)
        + seq![m.option, m.result] + spec_u64_to_le_bytes(m.prize) + spec_u64_to_le_bytes(m.open_slot)
        + spec_u64_to_le_bytes(m.open_ts) + spec_u64_to_le_bytes(m.close_ts) + spec_u64_to_le_bytes(m.expiry_ts)
        + seq![if m.is_opened { 1u8 } else { 0u8 }, m.bump]
}

/// A market, once stored, reads back as itself, whatever follows it in the
/// account.
pub proof fn law_event_market_reads_back(m: EventMarket, rest: Seq<u8>)
    ensures
        account_outcome(
            event_market_bytes(m) + rest,
            event_market_discriminator(),
            event_market_fields(event_market_bytes(m) + rest),
        ) == Ok::<EventMarketFields, AccountError>(event_market_view(m)),
{
    lemma_auto_spec_u64_to_from_le_bytes();
    let b = event_market_bytes(m) + rest;
    let a = opt_u64_bytes(m.open_raw_data).len() as int;
    let c = opt_u8_bytes(m.open_phase).len() as int;
    let p1 = 40int;
    let p2 = p1 + a;
    let p3 = p2 + c;
    assert(m.event_config@.len() == 32);
    assert(b.subrange(0, 8) =~= event_market_discriminator());
    assert(b.subrange(8, 40) =~= m.event_config@);
    assert(b.subrange(p1, p2) =~= opt_u64_bytes(m.open_raw_data));
    if m.open_raw_data is Some {
        assert(b.subrange(p1 + 1, p2) =~= spec_u64_to_le_bytes(m.open_raw_data->Some_0));
    }
    assert(b.subrange(p2, p3) =~= opt_u8_bytes(m.open_phase));
    assert(b[p3] == m.option);
    assert(b[p3 + 1] == m.result);
    assert(b.subrange(p3 + 2, p3 + 10) =~= spec_u64_to_le_bytes(m.prize));
    assert(b.subrange(p3 + 10, p3 + 18) =~= spec_u64_to_le_bytes(m.open_slot));
    assert(b.subrange(p3 + 18, p3 + 26) =~= spec_u64_to_le_bytes(m.open_ts));
    assert(b.subrange(p3 + 26, p3 + 34) =~= spec_u64_to_le_bytes(m.close_ts));
    assert(b.subrange(p3 + 34, p3 + 42) =~= spec_u64_to_le_bytes(m.expiry_ts));
    assert(b[p3 + 42] == if m.is_opened { 1u8 } else { 0u8 });
    assert(b[p3 + 43] == m.bump);
}

/// The little-endian `u32` at `p`, and the position after it.
pub open spec fn u32_at(b: Seq<u8>, p: int) -> Option<(u32, int)> {
    if 0 <= p && p + 4 <= b.len() {
        Some((spec_u32_from_le_bytes(b.subrange(p, p + 4)), p + 4))
    } else {
        None
    }
}

/// The text at `p`: its length in bytes as a `u32`, then that many bytes of
/// UTF-8.
pub open spec fn string_at(b: Seq<u8>, p: int) -> Option<(Seq<char>, int)> {
    match u32_at(b, p) {
        None => None,
        Some((n, q)) => if q + n <= b.len() && valid_utf8(b.subrange(q, q + n)) {
            Some((decode_utf8(b.subrange(q, q + n)), q + n))
        } else {
            None
        },
    }
}

/// `n` addresses one after the other from `p`.
pub open spec fn keys_at(b: Seq<u8>, p: int, n: nat) -> Option<(Seq<Seq<u8>>, int)>
    decreases n,
{
    if n == 0 {
        Some((Seq::empty(), p))
    } else {
        match keys_at(b, p, (n - 1) as nat) {
            None => None,
            Some((ks, q)) => match key_at(b, q) {
                None => None,
                Some((k, r)) => Some((ks.push(k), r)),
            },
        }
    }
}

/// The list of addresses at `p`: its length as a `u32`, then the addresses.
pub open spec fn key_list_at(b: Seq<u8>, p: int) -> Option<(Seq<Seq<u8>>, int)> {
    match u32_at(b, p) {
        None => None,
        Some((n, q)) => keys_at(b, q, n as nat),
    }
}

/// The discriminator of oracle configuration accounts: the first 8 bytes
/// of the SHA-256 hash of `account:OracleConfig`.
pub open spec fn oracle_config_discriminator() -> Seq<u8> {
    seq![133u8, 196, 152, 50, 27, 21, 145, 254]
}

/// The oracle configuration that the fields from position 8 of `b` hold.
pub open spec fn oracle_config_fields(b: Seq<u8>) -> Option<OracleConfigView> {
    match string_at(b, 8) {
        None => None,
        Some((name, p1)) => match string_at(b, p1) {
            None => None,
            Some((description, p2)) => match u8_at(b, p2) {
                None => None,
                Some((total_phases, p3)) => match key_list_at(b, p3) {
                    None => None,
                    Some((authorities, p4)) => match key_at(b, p4) {
                        None => None,
                        Some((admin, p5)) => match u8_at(b, p5) {
                            None => None,
                            Some((bump, _)) => Some(
                                OracleConfigView { name, description, total_phases, authorities, admin, bump },
                            ),
                        },
                    },
                },
            },
        },
    }
}

fn read_u32(b: &[u8], p: usize) -> (r: Option<(u32, usize)>)
    ensures
        match r {
            Some((v, q)) => u32_at(b@, p as int) == Some((v, q as int)),
            None => u32_at(b@, p as int) is None,
        },
{
    if p <= b.len() && b.len() - p >= 4 {
        let mut word: Vec<u8> = Vec::new();
        let mut i: usize = p;
        let end: usize = p + 4;
        while i < end
            invariant
                end == p + 4,
                p <= i <= p + 4,
                p + 4 <= b@.len(),
                word@ == b@.subrange(p as int, i as int),
            decreases end - i,
        {
            word.push(b[i]);
            assert(b@.subrange(p as int, i + 1) =~= b@.subrange(p as int, i as int).push(b@[i as int]));
            i = i + 1;
        }
        Some((u32_from_le_bytes(word.as_slice()), p + 4))
    } else {
        None
    }
}

/// `String::from_utf8` of std: the text whose UTF-8 encoding is `bytes`,
/// or `None` when no text has that encoding.
#[verifier::external_body]
fn text_from_utf8(bytes: Vec<u8>) -> (r: Option<String>)
    ensures
        match r {
            Some(s) => encode_utf8(s@) == bytes@,
            None => forall|t: Seq<char>| encode_utf8(t) != bytes@,
        },
{
    String::from_utf8(bytes).ok()
}

fn read_string(b: &[u8], p: usize) -> (r: Option<(String, usize)>)
    ensures
        match r {
            Some((s, q)) => string_at(b@, p as int) == Some((s@, q as int)),
            None => string_at(b@, p as int) is None,
        },
{
    let (n, q) = match read_u32(b, p) {
        Some(x) => x,
        None => return None,
    };
    let len = n as usize;
    if q > b.len() || b.len() - q < len {
        return None;
    }
    let mut bytes: Vec<u8> = Vec::new();
    let mut i: usize = q;
    let end: usize = q + len;
    while i < end
        invariant
            end == q + len,
            q <= i <= end,
            end <= b@.len(),
            bytes@ == b@.subrange(q as int, i as int),
        decreases end - i,
    {
        bytes.push(b[i]);
        assert(b@.subrange(q as int, i + 1) =~= b@.subrange(q as int, i as int).push(b@[i as int]));
        i = i + 1;
    }
    let ghost sub = bytes@;
    match text_from_utf8(bytes) {
        Some(s) => {
            proof {
                vstd::utf8::encode_utf8_valid_utf8(s@);
                vstd::utf8::encode_utf8_decode_utf8(s@);
            }
            Some((s, end))
        },
        None => {
            proof {
                if valid_utf8(sub) {
                    vstd::utf8::decode_utf8_encode_utf8(sub);
                    assert(encode_utf8(decode_utf8(sub)) == sub);
                }
            }
            None
        },
    }
}

fn read_key_list(b: &[u8], p: usize) -> (r: Option<(Vec<Pubkey>, usize)>)
    ensures
        match r {
            Some((ks, q)) => key_list_at(b@, p as int) == Some((crate::pubkey::keys_view(ks@), q as int)),
            None => key_list_at(b@, p as int) is None,
        },
{
    let (n, q) = match read_u32(b, p) {
        Some(x) => x,
        None => return None,
    };
    let mut keys: Vec<Pubkey> = Vec::new();
    let mut pos: usize = q;
    let mut i: u32 = 0;
    assert(crate::pubkey::keys_view(keys@) =~= Seq::<Seq<u8>>::empty());
    while i < n
        invariant
            0 <= i <= n,
            u32_at(b@, p as int) == Some((n, q as int)),
            keys_at(b@, q as int, i as nat) == Some((crate::pubkey::keys_view(keys@), pos as int)),
        decreases n - i,
    {
        let (k, next) = match read_key(b, pos) {
            Some(x) => x,
            None => {
                proof {
                    lemma_keys_stop(b@, q as int, (i + 1) as nat, n as nat);
                }
                return None;
            },
        };
        keys.push(k);
        assert(crate::pubkey::keys_view(keys@) =~= crate::pubkey::keys_view(keys@.drop_last()).push(k@));
        pos = next;
        i = i + 1;
    }
    Some((keys, pos))
}

/// Once reading the addresses fails, reading more of them fails too.
proof fn lemma_keys_stop(b: Seq<u8>, p: int, k: nat, n: nat)
    requires
        k <= n,
        keys_at(b, p, k) is None,
    ensures
        keys_at(b, p, n) is None,
    decreases n - k,
{
    if k < n {
        lemma_keys_stop(b, p, k + 1, n);
    }
}

impl OracleConfig {
    /// Reads an oracle configuration from the stored bytes of its account.
    pub fn try_deserialize(buf: &[u8]) -> (r: Result<OracleConfig, AccountError>)
        ensures
            read_view(r, |c: OracleConfig| c@) == account_outcome(
                buf@,
                oracle_config_discriminator(),
                oracle_config_fields(buf@),
            ),
    {
        if buf.len() < 8 {
            return Err(AccountError::AccountDiscriminatorNotFound);
        }
        let disc: [u8; 8] = [133u8, 196, 152, 50, 27, 21, 145, 254];
        assert(disc@ =~= oracle_config_discriminator());
        if !has_discriminator(buf, &disc) {
            return Err(AccountError::AccountDiscriminatorMismatch);
        }
        let failed = Err(AccountError::AccountDidNotDeserialize);
        let (name, p1) = match read_string(buf, 8) { Some(x) => x, None => return failed };
        let (description, p2) = match read_string(buf, p1) { Some(x) => x, None => return failed };
        let (total_phases, p3) = match read_u8(buf, p2) { Some(x) => x, None => return failed };
        let (authority_pubkeys, p4) = match read_key_list(buf, p3) { Some(x) => x, None => return failed };
        let (admin, p5) = match read_key(buf, p4) { Some(x) => x, None => return failed };
        let (bump, _) = match read_u8(buf, p5) { Some(x) => x, None => return failed };
        Ok(OracleConfig { name, description, total_phases, authority_pubkeys, admin, bump })
    }
}

} // verus!
