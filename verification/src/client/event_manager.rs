//! The decisions of the market loop: which hourly and daily markets it
//! opens, when it asks a market to take the oracle reading, when it resolves
//! it, and the list of markets it follows until they are resolved.
use vstd::prelude::*;
use std::collections::BTreeMap;
use vstd::std_specs::iter::IteratorSpec;
use vstd::std_specs::cmp::OrdSpec;
use crate::client::conf::{Market, Metadata, Tokenomics};
use crate::client::time::{TimeError, time_delta_add, floor_to_hour, floor_to_day, hour_start, day_start,
    utc_in_range, MIN_UTC_TIMESTAMP, MAX_UTC_TIMESTAMP};

verus! {

broadcast use {vstd::std_specs::btree::group_btree_axioms, vstd::laws_cmp::group_laws_cmp};

/// A market the loop follows, keyed by its close time.
#[derive(Clone, Copy, Debug, PartialEq, Eq)]
pub struct Event {
    pub open_ts: u64,
    pub close_ts: u64,
    pub opened: bool,
    pub fetched: bool,
    pub resolved: bool,
}

impl Default for Event {
    fn default() -> (e: Event)
        ensures
            e == (Event { open_ts: 0, close_ts: 0, opened: false, fetched: false, resolved: false }),
    {
        Event { open_ts: 0, close_ts: 0, opened: false, fetched: false, resolved: false }
    }
}

/// How often markets are opened.
#[derive(Clone, Copy, Debug, PartialEq, Eq)]
pub enum Cadence {
    Hourly,
    Daily,
}

/// The length in seconds of a market of the cadence.
pub open spec fn period_of(c: Cadence) -> u64 {
    match c {
        Cadence::Hourly => 3600,
        Cadence::Daily => 86400,
    }
}

impl Cadence {
    /// The length in seconds of a market of the cadence.
    pub fn period(&self) -> (p: u64)
        ensures
            p == period_of(*self),
    {
        match self {
            Cadence::Hourly => 3600,
            Cadence::Daily => 86400,
        }
    }
}

/// The open times of the hourly markets the loop expects at `now`: one
/// second into this hour and into each of the next two.
pub open spec fn hourly_open_times_spec(now: int) -> Seq<u64> {
    let r = hour_start(now);
    seq![((r + 1) as i64) as u64, ((r + 3601) as i64) as u64, ((r + 7201) as i64) as u64]
}

/// The open times of the daily markets the loop expects at `now`: the
/// start of today and of the next two days.
pub open spec fn daily_open_times_spec(now: int) -> Seq<u64> {
    let r = day_start(now);
    seq![(r as i64) as u64, ((r + 86400) as i64) as u64, ((r + 172800) as i64) as u64]
}

/// The start of the hour, or of the day, of a time in range is in range.
proof fn lemma_starts_in_range(now: int)
    requires
        utc_in_range(now),
    ensures
        MIN_UTC_TIMESTAMP <= day_start(now) <= hour_start(now) <= now,
{
    let m = MIN_UTC_TIMESTAMP as int;
    vstd::arithmetic::div_mod::lemma_fundamental_div_mod(now, 3600);
    vstd::arithmetic::div_mod::lemma_fundamental_div_mod(now, 86400);
    vstd::arithmetic::div_mod::lemma_div_is_ordered(m, now, 86400);
    vstd::arithmetic::div_mod::lemma_fundamental_div_mod_converse(m, 86400, m / 86400, 0);
    assert(m == 86400 * (m / 86400));
    assert(86400 * (m / 86400) <= 86400 * (now / 86400)) by (nonlinear_arith)
        requires
            m / 86400 <= now / 86400,
    ;
    assert(now % 86400 == 3600 * ((now % 86400) / 3600) + (now % 86400) % 3600) by {
        vstd::arithmetic::div_mod::lemma_fundamental_div_mod(now % 86400, 3600);
    }
    vstd::arithmetic::div_mod::lemma_fundamental_div_mod_converse(
        now,
        3600,
        24 * (now / 86400) + (now % 86400) / 3600,
        (now % 86400) % 3600,
    );
}

/// The open times of the hourly markets the loop expects at `now`.
pub fn hourly_open_times(now: i64) -> (r: Result<Vec<u64>, TimeError>)
    requires
        utc_in_range(now as int),
        hour_start(now as int) + 7201 <= MAX_UTC_TIMESTAMP,
    ensures
        r matches Ok(v) && v@ == hourly_open_times_spec(now as int),
{
    proof {
        lemma_starts_in_range(now as int);
    }
    let rounded = floor_to_hour(now)?;
    let mut open_times: Vec<u64> = Vec::new();
    open_times.push(time_delta_add(rounded, 0, 0, 1)?);
    open_times.push(time_delta_add(rounded, 0, 1, 1)?);
    open_times.push(time_delta_add(rounded, 0, 2, 1)?);
    assert(open_times@ =~= hourly_open_times_spec(now as int));
    Ok(open_times)
}

/// The open times of the daily markets the loop expects at `now`.
pub fn daily_open_times(now: i64) -> (r: Result<Vec<u64>, TimeError>)
    requires
        utc_in_range(now as int),
        day_start(now as int) + 172800 <= MAX_UTC_TIMESTAMP,
    ensures
        r matches Ok(v) && v@ == daily_open_times_spec(now as int),
{
    proof {
        lemma_starts_in_range(now as int);
    }
    let rounded = floor_to_day(now)?;
    let mut open_times: Vec<u64> = Vec::new();
    open_times.push(time_delta_add(rounded, 0, 0, 0)?);
    open_times.push(time_delta_add(rounded, 1, 0, 0)?);
    open_times.push(time_delta_add(rounded, 2, 0, 0)?);
    assert(open_times@ =~= daily_open_times_spec(now as int));
    Ok(open_times)
}

/// The close time of a market of the cadence that opens at `open_ts`.
pub fn close_ts_for(open_ts: u64, cadence: Cadence) -> (c: u64)
    requires
        open_ts + period_of(cadence) <= u64::MAX,
    ensures
        c == open_ts + period_of(cadence),
{
    open_ts + cadence.period()
}

/// Whether a newly followed market closing at `close_ts` is already due to
/// take the oracle reading at `now`: an hourly one when `now` plus an hour is
/// past its close, a daily one when `now` plus a day reaches it. An error
/// when `now` plus the period overflows.
pub open spec fn fetch_due_spec(now: i64, close_ts: u64, cadence: Cadence) -> Result<bool, TimeError> {
    let check = (now as u64) + period_of(cadence);
    if check > u64::MAX {
        Err(TimeError::Overflow)
    } else {
        Ok(
            match cadence {
                Cadence::Hourly => check > close_ts,
                Cadence::Daily => check >= close_ts,
            },
        )
    }
}

/// Whether a newly followed market closing at `close_ts` is due to take the
/// oracle reading at `now`.
pub fn fetch_due(now: i64, close_ts: u64, cadence: Cadence) -> (r: Result<bool, TimeError>)
    ensures
        r == fetch_due_spec(now, close_ts, cadence),
{
    let check_ts = match (now as u64).checked_add(cadence.period()) {
        Some(t) => t,
        None => return Err(TimeError::Overflow),
    };
    match cadence {
        Cadence::Hourly => Ok(check_ts > close_ts),
        Cadence::Daily => Ok(check_ts >= close_ts),
    }
}

/// The toggle sent to a newly followed market: whether to open it (when it
/// is not opened) and whether it takes the reading; nothing when neither.
pub fn toggle_plan(fetched: bool, market_is_opened: bool) -> (r: Option<(bool, bool)>)
    ensures
        r == if !market_is_opened || fetched {
            Some((!market_is_opened, fetched))
        } else {
            None::<(bool, bool)>
        },
{
    let mut toggled = false;
    if !market_is_opened {
        toggled = true;
    }
    if toggled || fetched {
        Some((toggled, fetched))
    } else {
        None
    }
}

/// What the refining pass does for a followed market at `now`: once the
/// market has opened, make it take the reading if it has not, and resolve
/// it if it is closed and not resolved.
#[derive(Clone, Copy, Debug, PartialEq, Eq)]
pub struct RefinePlan {
    pub toggle: bool,
    pub resolve: bool,
}

/// The refining pass's plan for `event` at `now`.
pub open spec fn refine_plan_spec(event: Event, now: i64) -> RefinePlan {
    let check = now as u64;
    if check > event.open_ts {
        RefinePlan { toggle: !event.fetched, resolve: !event.resolved && check > event.close_ts }
    } else {
        RefinePlan { toggle: false, resolve: false }
    }
}

/// Plans the refining pass for `event` at `now`.
pub fn refine_plan(event: &Event, now: i64) -> (p: RefinePlan)
    ensures
        p == refine_plan_spec(*event, now),
{
    let check_ts = now as u64;
    let mut plan = RefinePlan { toggle: false, resolve: false };
    if check_ts > event.open_ts {
        if !event.fetched {
            plan.toggle = true;
        }
        if !event.resolved && check_ts > event.close_ts {
            plan.resolve = true;
        }
    }
    plan
}

/// Whether the refining pass opens a market as it makes it take the
/// reading: unless it is already opened.
pub fn refine_toggle(market_is_opened: bool) -> (t: bool)
    ensures
        t == !market_is_opened,
{
    let mut toggle = true;
    if market_is_opened {
        toggle = false;
    }
    toggle
}

/// Ten to the power `e`.
pub open spec fn pow10(e: nat) -> nat
    decreases e,
{
    if e == 0 {
        1
    } else {
        10 * pow10((e - 1) as nat)
    }
}

/// The prize of a resolved market: the configured prize in whole tokens,
/// in the token's smallest units.
pub open spec fn event_prize_spec(tokenomics: Tokenomics, metadata: Metadata) -> int {
    tokenomics.event_prize * pow10(metadata.ft_token_decimal as nat)
}

/// The prize of a resolved market.
pub fn event_prize(tokenomics: &Tokenomics, metadata: &Metadata) -> (p: u64)
    requires
        pow10(metadata.ft_token_decimal as nat) <= u64::MAX,
        event_prize_spec(*tokenomics, *metadata) <= u64::MAX,
    ensures
        p == event_prize_spec(*tokenomics, *metadata),
{
    let decimals = metadata.ft_token_decimal;
    let mut scale: u64 = 1;
    let mut i: u8 = 0;
    while i < decimals
        invariant
            i <= decimals,
            scale == pow10(i as nat),
            pow10(decimals as nat) <= u64::MAX,
        decreases decimals - i,
    {
        proof {
            lemma_pow10_grows((i + 1) as nat, decimals as nat);
        }
        scale = scale * 10;
        i = i + 1;
    }
    assert(tokenomics.event_prize * scale <= u64::MAX);
    tokenomics.event_prize * scale
}

/// Powers of ten grow with the exponent.
proof fn lemma_pow10_grows(a: nat, b: nat)
    requires
        a <= b,
    ensures
        pow10(a) <= pow10(b),
    decreases b,
{
    if a < b {
        lemma_pow10_grows(a, (b - 1) as nat);
    }
}

/// The markets the loop follows, keyed by close time.
pub struct Checklist {
    events: BTreeMap<u64, Event>,
}

impl View for Checklist {
    type V = Map<u64, Event>;

    closed spec fn view(&self) -> Map<u64, Event> {
        self.events@
    }
}

/// The list with the market at `key` marked as having taken the reading.
pub open spec fn fetched_at(m: Map<u64, Event>, key: u64) -> Map<u64, Event> {
    m.insert(key, Event { fetched: true, ..m[key] })
}

/// The list with the market at `key` marked as resolved.
pub open spec fn resolved_at(m: Map<u64, Event>, key: u64) -> Map<u64, Event> {
    m.insert(key, Event { resolved: true, ..m[key] })
}

/// The list without its resolved markets.
pub open spec fn unresolved(m: Map<u64, Event>) -> Map<u64, Event> {
    m.restrict(m.dom().filter(|k: u64| !m[k].resolved))
}

/// The market followed from `open_ts` to `close_ts`, opened, and marked as
/// having taken the reading when `fetched`.
pub open spec fn followed(open_ts: u64, close_ts: u64, fetched: bool) -> Event {
    Event { open_ts, close_ts, opened: true, fetched, resolved: false }
}

/// The keys of a map in increasing order.
proof fn lemma_increasing_keys(ks: Seq<&u64>)
    requires
        vstd::std_specs::btree::increasing_seq(ks),
    ensures
        forall|i: int, j: int| 0 <= i < j < ks.len() ==> *ks[i] < *ks[j],
{
    assert(vstd::laws_cmp::obeys_cmp::<u64>());
    assert(vstd::laws_cmp::obeys_cmp::<&u64>());
    vstd::std_specs::btree::axiom_increasing_seq_meaning(ks);
    assert forall|i: int, j: int| 0 <= i < j < ks.len() implies *ks[i] < *ks[j] by {
        assert(OrdSpec::cmp_spec(&ks[i], &ks[j]) is Less);
    }
}

impl Checklist {
    /// An empty list.
    pub fn new() -> (c: Checklist)
        ensures
            c@ == Map::<u64, Event>::empty(),
    {
        Checklist { events: BTreeMap::new() }
    }

    /// Whether a market is followed under `key`.
    pub fn contains(&self, key: u64) -> (b: bool)
        ensures
            b == self@.contains_key(key),
    {
        self.events.contains_key(&key)
    }

    /// The market followed under `key`.
    pub fn get(&self, key: u64) -> (e: Option<Event>)
        ensures
            match e {
                Some(ev) => self@.contains_key(key) && self@[key] == ev,
                None => !self@.contains_key(key),
            },
    {
        match self.events.get(&key) {
            Some(ev) => Some(*ev),
            None => None,
        }
    }

    /// Follows the market from `open_ts` to `close_ts` under its close time,
    /// in place of any market followed there.
    pub fn track(&mut self, open_ts: u64, close_ts: u64, fetched: bool)
        ensures
            final(self)@ == old(self)@.insert(close_ts, followed(open_ts, close_ts, fetched)),
    {
        let event = Event { open_ts, close_ts, opened: true, fetched, resolved: false };
        self.events.insert(close_ts, event);
    }

    /// The keys of the followed markets, in increasing order.
    pub fn keys(&self) -> (v: Vec<u64>)
        ensures
            v@.to_set() == self@.dom(),
            forall|i: int, j: int| 0 <= i < j < v@.len() ==> v@[i] < v@[j],
    {
        let mut out: Vec<u64> = Vec::new();
        for k in it: self.events.keys()
            invariant
                out@ == it.seq().take(it.index()).map_values(|r: &u64| *r),
                it.seq() == vstd::std_specs::btree::spec_keys_iter(&self.events).remaining(),
        {
            out.push(*k);
            assert(it.seq().take(it.index() + 1).map_values(|r: &u64| *r) =~= out@);
        }
        proof {
            let ks = vstd::std_specs::btree::spec_keys_iter(&self.events).remaining();
            assert(ks.take(ks.len() as int) =~= ks);
            assert(out@ =~= ks.unref());
            lemma_increasing_keys(ks);
        }
        out
    }

    /// Marks the market at `key` as having taken the reading.
    pub fn mark_fetched(&mut self, key: u64)
        requires
            old(self)@.contains_key(key),
        ensures
            final(self)@ == fetched_at(old(self)@, key),
    {
        let mut event = *self.events.get(&key).unwrap();
        event.fetched = true;
        self.events.insert(key, event);
    }

    /// Marks the market at `key` as resolved.
    pub fn mark_resolved(&mut self, key: u64)
        requires
            old(self)@.contains_key(key),
        ensures
            final(self)@ == resolved_at(old(self)@, key),
    {
        let mut event = *self.events.get(&key).unwrap();
        event.resolved = true;
        self.events.insert(key, event);
    }

    /// Stops following the resolved markets.
    pub fn retain_unresolved(&mut self)
        ensures
            final(self)@ == unresolved(old(self)@),
    {
        let keys = self.keys();
        let ghost start = self@;
        let mut i: usize = 0;
        while i < keys.len()
            invariant
                0 <= i <= keys@.len(),
                keys@.to_set() == start.dom(),
                forall|a: int, b: int| 0 <= a < b < keys@.len() ==> keys@[a] < keys@[b],
                forall|k: u64| #[trigger] self@.contains_key(k) ==> start.contains_key(k) && self@[k] == start[k],
                forall|j: int|
                    0 <= j < i ==> (#[trigger] self@.contains_key(keys@[j]) <==> !start[keys@[j]].resolved),
                forall|j: int| i <= j < keys@.len() ==> #[trigger] self@.contains_key(keys@[j]),
            decreases keys@.len() - i,
        {
            let k = keys[i];
            let ghost before = self@;
            assert(self@.contains_key(keys@[i as int]));
            let resolved = match self.events.get(&k) {
                Some(ev) => ev.resolved,
                None => false,
            };
            assert(resolved == start[k].resolved);
            if resolved {
                self.events.remove(&k);
                assert(self@ == before.remove(k));
            }
            proof {
                assert forall|j: int| 0 <= j < keys@.len() && j != i implies keys@[j] != k by {
                    if j < i {
                        assert(keys@[j] < keys@[i as int]);
                    } else {
                        assert(keys@[i as int] < keys@[j]);
                    }
                }
            }
            i = i + 1;
        }
        proof {
            assert forall|k: u64| start.contains_key(k) implies (self@.contains_key(k) <==> !start[k].resolved) by {
                assert(keys@.to_set().contains(k));
                let j = choose|j: int| 0 <= j < keys@.len() && keys@[j] == k;
                assert(self@.contains_key(keys@[j]) <==> !start[keys@[j]].resolved);
            }
            assert(self@ =~= unresolved(start));
        }
    }
}

/// Whether the loop opens markets of the cadence on its own, as the market
/// configuration says.
pub open spec fn creation_enabled_spec(market: Market, cadence: Cadence) -> bool {
    match cadence {
        Cadence::Hourly => market.hourly_create,
        Cadence::Daily => market.daily_create,
    }
}

/// Whether the loop opens markets of the cadence on its own.
pub fn creation_enabled(market: &Market, cadence: Cadence) -> (b: bool)
    ensures
        b == creation_enabled_spec(*market, cadence),
{
    match cadence {
        Cadence::Hourly => market.hourly_create,
        Cadence::Daily => market.daily_create,
    }
}

/// What the creation pass does with one expected opening time: skip it when
/// a market is already followed under that time, or follow the market that
/// opens then and closes one period later.
#[derive(Clone, Copy, Debug, PartialEq, Eq)]
pub enum CreationStep {
    Skip,
    Follow { open_ts: u64, close_ts: u64 },
}

/// The step for the expected opening time `expected` of the cadence, given
/// the markets followed so far. The list is looked up under the opening
/// time, though it keys its markets by close time.
pub fn creation_step(checklist: &Checklist, expected: u64, cadence: Cadence) -> (s: CreationStep)
    requires
        expected + period_of(cadence) <= u64::MAX,
    ensures
        checklist@.contains_key(expected) ==> s == CreationStep::Skip,
        !checklist@.contains_key(expected) ==> s == (CreationStep::Follow {
            open_ts: expected,
            close_ts: (expected + period_of(cadence)) as u64,
        }),
{
    if checklist.contains(expected) {
        CreationStep::Skip
    } else {
        CreationStep::Follow { open_ts: expected, close_ts: close_ts_for(expected, cadence) }
    }
}

/// The market to create for a followed market from `open_ts` to `close_ts`,
/// given whether reading it from the chain succeeded: none when it did;
/// otherwise the opening, closing and expiry times, the expiry being the
/// close.
pub fn creation_request(open_ts: u64, close_ts: u64, market_found: bool) -> (r: Option<(u64, u64, u64)>)
    ensures
        market_found ==> r is None,
        !market_found ==> r == Some((open_ts, close_ts, close_ts)),
{
    if market_found {
        None
    } else {
        Some((open_ts, close_ts, close_ts))
    }
}

} // verus!
