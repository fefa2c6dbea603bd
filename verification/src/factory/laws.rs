//! Laws that relate the factory's instructions to one another.
use vstd::prelude::*;
use crate::context::Account;
use crate::error::ErrorCode;
use crate::factory::instructions::choice::{Choose, ChooseParams, choice_spec};
use crate::factory::instructions::claim::{Claim, ClaimParams, claim_spec, claim_addresses_hold, sbt_mint_address};
use crate::factory::instructions::create_event_market::{CreateEventMarket, CreateEventMarketParams, create_market_spec};
use crate::factory::instructions::resolvers::fear_and_greed_event_market_resolve::{
    FearAndGreedEventMarketResolve, FearAndGreedEventMarketResolveParams, resolve_spec, winning_option};
use crate::factory::state::global_config::is_global_config_key;
use crate::factory::state::mint_config::mint_authority_address;
use crate::factory::utils::oracle_data_address;
use crate::factory::instructions::toggle_event_market::{ToggleEventMarket, ToggleEventMarketParams, toggle_spec};
use crate::factory::instructions::withdraw::withdraw_spec;
use crate::factory::state::event_market::{EventMarket, event_market_address};
use crate::factory::state::event_position::EventPosition;
use crate::factory::state::marker::Marker;
use crate::factory::state::user_position::UserPosition;
use crate::pubkey::{Pubkey, address_of};

verus! {

/// Withdrawing from the option just chosen succeeds and gives back the
/// unstaked SBT, the tally as it was, and no position in the market.
pub proof fn law_withdraw_undoes_choice(
    event_config_key: Pubkey,
    event_market: Account<EventMarket>,
    token_amount: u64,
    marker: Account<Marker>,
    user_position: UserPosition,
    event_position: EventPosition,
    payer: Pubkey,
    indicate: u8,
    now: i64,
)
    requires
        choice_spec(event_config_key, event_market, token_amount, marker, user_position, event_position, payer, indicate, now) is Ok,
    ensures
        ({
            let (m, u, e, _) = choice_spec(event_config_key, event_market, token_amount, marker, user_position,
                event_position, payer, indicate, now)->Ok_0;
            let w = withdraw_spec(m, e, event_market.key, payer, indicate);
            &&& w is Ok
            &&& w->Ok_0.0.indicate == marker.data.indicate
            &&& w->Ok_0.1.existed == user_position.existed
            &&& w->Ok_0.2.amount == event_position.amount
        }),
{
}

/// An SBT that is staked cannot be staked again, in any market, until it is
/// withdrawn or claimed; a choice stakes the SBT.
pub proof fn law_sbt_is_staked_once(
    event_config_key: Pubkey,
    event_market: Account<EventMarket>,
    token_amount: u64,
    marker: Account<Marker>,
    user_position: UserPosition,
    event_position: EventPosition,
    payer: Pubkey,
    indicate: u8,
    now: i64,
)
    ensures
        marker.data.indicate != 0 ==> choice_spec(event_config_key, event_market, token_amount, marker, user_position,
            event_position, payer, indicate, now) is Err,
        choice_spec(event_config_key, event_market, token_amount, marker, user_position, event_position, payer, indicate, now) is Ok
            ==> choice_spec(event_config_key, event_market, token_amount, marker, user_position, event_position, payer,
                indicate, now)->Ok_0.0.indicate != 0,
{
}

/// A choice adds exactly one to the tally of the chosen option, and a
/// withdrawal takes exactly one away.
pub proof fn law_tally_counts_stakes(
    event_config_key: Pubkey,
    event_market: Account<EventMarket>,
    token_amount: u64,
    marker: Account<Marker>,
    user_position: UserPosition,
    event_position: EventPosition,
    payer: Pubkey,
    indicate: u8,
    now: i64,
)
    ensures
        choice_spec(event_config_key, event_market, token_amount, marker, user_position, event_position, payer, indicate, now) is Ok
            ==> choice_spec(event_config_key, event_market, token_amount, marker, user_position, event_position, payer,
                indicate, now)->Ok_0.2.amount == event_position.amount + 1,
        withdraw_spec(marker.data, event_position, event_market.key, payer, indicate) is Ok
            ==> withdraw_spec(marker.data, event_position, event_market.key, payer, indicate)->Ok_0.2.amount
                == event_position.amount - 1,
{
}

/// A closed or resolved market takes no choice.
pub proof fn law_closed_market_takes_no_choice(
    event_config_key: Pubkey,
    event_market: Account<EventMarket>,
    token_amount: u64,
    marker: Account<Marker>,
    user_position: UserPosition,
    event_position: EventPosition,
    payer: Pubkey,
    indicate: u8,
    now: i64,
)
    requires
        !event_market.data.is_opened || event_market.data.result != 0,
    ensures
        choice_spec(event_config_key, event_market, token_amount, marker, user_position, event_position, payer, indicate, now) is Err,
{
}

/// Resolving a market names option 1 when the value fell and option 2
/// otherwise, closes it, and sets its prize; a resolved market cannot be
/// resolved again, nor toggled, nor chosen in.
pub proof fn law_resolution_is_final(c: FearAndGreedEventMarketResolve, prize: u64, now: i64, toggle: ToggleEventMarket,
    params: ToggleEventMarketParams)
    requires
        resolve_spec(c, prize, now) is Ok,
    ensures
        ({
            let m = resolve_spec(c, prize, now)->Ok_0.0;
            &&& m.result == winning_option(c.event_market.data.open_raw_data->Some_0, c.oracle_data.data.raw_data)
            &&& (m.result == 1 || m.result == 2)
            &&& !m.is_opened
            &&& m.prize == prize
            &&& resolve_spec(c.with_market(m), prize, now) == Err::<(EventMarket, crate::factory::chain_event::event::EventEvent), ErrorCode>(ErrorCode::EventIsFinalized)
            &&& toggle_spec(ToggleEventMarket { event_market_account: Account { key: c.event_market.key, data: m }, ..toggle }, params) is Err
        }),
{
}

/// Nothing can be claimed of a market before it is resolved.
pub proof fn law_claim_requires_resolution(c: Claim, params: ClaimParams, bump: u8)
    requires
        c.event_market.data.result == 0,
    ensures
        claim_spec(c, params, bump) is Err,
{
}

/// Each market created advances the event's market count by one, and
/// starts closed and unresolved.
pub proof fn law_market_creation_counts(c: CreateEventMarket, params: CreateEventMarketParams, bump: u8, slot: u64, now: i64)
    requires
        create_market_spec(c, params, bump, slot, now) is Ok,
    ensures
        create_market_spec(c, params, bump, slot, now)->Ok_0.0.index == c.event_config.data.index + 1,
        create_market_spec(c, params, bump, slot, now)->Ok_0.1.result == 0,
        !create_market_spec(c, params, bump, slot, now)->Ok_0.1.is_opened,
{
}

/// A created market stands at the address derived from its oracle
/// configuration and its opening time, and records that time, so a day's
/// market is found from the day's timestamp.
pub proof fn law_market_found_from_its_opening_time(c: CreateEventMarket, params: CreateEventMarketParams, bump: u8, slot: u64, now: i64)
    requires
        create_market_spec(c, params, bump, slot, now) is Ok,
    ensures
        address_of(event_market_address(c.oracle_config.key@, params.open_ts)) == Some(c.event_market_account.key@),
        create_market_spec(c, params, bump, slot, now)->Ok_0.1.open_ts == params.open_ts,
        create_market_spec(c, params, bump, slot, now)->Ok_0.2.event == Some(c.event_market_account.key),
{
}

/// A resolution names option 1 exactly when the oracle's value at
/// resolution is below the market's opening value, and option 2 otherwise;
/// it closes the market and sets the prize. A market that the configured
/// resolver resolves after its close and expiry, with its paired oracle and
/// its opening value recorded, and not resolved before, is resolved.
pub proof fn law_resolution_names_the_fallen_option(
    pre: FearAndGreedEventMarketResolve,
    post: FearAndGreedEventMarketResolve,
    params: FearAndGreedEventMarketResolveParams,
    now: i64,
    r: Result<crate::factory::chain_event::event::EventEvent, ErrorCode>,
)
    requires
        FearAndGreedEventMarketResolve::outcome(pre, post, params, now, r),
    ensures
        r is Ok ==> {
            let open = pre.event_market.data.open_raw_data;
            let value = pre.oracle_data.data.raw_data;
            &&& open is Some
            &&& (post.event_market.data.result == 1 <==> value < open->Some_0)
            &&& (post.event_market.data.result == 2 <==> value >= open->Some_0)
            &&& !post.event_market.data.is_opened
            &&& post.event_market.data.prize == params.prize
            &&& post.event_market.key == pre.event_market.key
        },
        ({
            &&& pre.resolver == pre.event_config.data.resolver
            &&& pre.oracle_config.key == pre.oracle_data.data.config
            &&& oracle_data_address(pre.oracle_config.key@) == Some(pre.oracle_data.key@)
            &&& pre.event_config.key == pre.event_market.data.event_config
            &&& now > 0
            &&& (now as u64) > pre.event_market.data.close_ts
            &&& (now as u64) > pre.event_market.data.expiry_ts
            &&& pre.event_market.data.result == 0
            &&& pre.event_market.data.open_raw_data is Some
        }) ==> r is Ok,
{
}

/// A winner's first claim prints the winner an edition of the option's
/// event SBT, with the prize transfer, whatever the option. A claim whose
/// accounts are the derived ones, on a resolved market, for the option the
/// SBT is staked on, by a user with a position, is granted; a winner with
/// the prize available and no edition yet is paid and printed edition 1.
pub proof fn law_first_winning_claim_prints_an_edition(
    pre: Claim,
    post: Claim,
    params: ClaimParams,
    bump: u8,
    r: Result<crate::factory::instructions::claim::ClaimOutcome, ErrorCode>,
)
    requires
        Claim::outcome(pre, post, params, bump, r),
    ensures
        (r is Ok && params.indicate == pre.event_market.data.result && pre.event_sbt_edition_mint_data_len == 0) ==> ({
            &&& r->Ok_0.transfer is Some
            &&& r->Ok_0.print is Some
            &&& r->Ok_0.print->Some_0.0.edition_mint == pre.event_sbt_edition_mint
            &&& r->Ok_0.print->Some_0.0.owner == pre.payer
            &&& r->Ok_0.print->Some_0.0.edition_number == 1
            &&& r->Ok_0.transfer->Some_0.0.amount == pre.event_market.data.prize
        }),
        ({
            &&& pre.event_config.key == pre.event_market.data.event_config
            &&& pre.event_market.data.result != 0
            &&& pre.marker.data.indicate == params.indicate
            &&& claim_addresses_hold(pre, params)
            &&& address_of(sbt_mint_address(pre.payer@)) == Some(params.sbt_mint@)
            &&& pre.user_position.data.existed
        }) ==> ({
            &&& params.indicate != pre.event_market.data.result ==> r is Ok
            &&& (params.indicate == pre.event_market.data.result
                && pre.event_mining_token_account.data.amount >= pre.event_market.data.prize
                && pre.token_account.data.amount + pre.event_market.data.prize <= u64::MAX
                && pre.event_sbt_edition_mint_data_len == 0
                && address_of(mint_authority_address(pre.collection_mint.key@)) == Some(pre.authority@))
                ==> r is Ok && r->Ok_0.print is Some
        }),
{
}

/// A toggle that takes the reading records the oracle's current value and
/// phase as the market's opening ones, whatever was recorded before; one
/// that does not leaves them. A toggle flips whether the market is open,
/// and only a toggle does. The governor's toggle of an unresolved market of
/// the configuration, with the real global configuration and, when the
/// reading is taken, the paired oracle data, succeeds.
pub proof fn law_toggle_takes_the_current_reading(
    pre: ToggleEventMarket,
    post: ToggleEventMarket,
    params: ToggleEventMarketParams,
    r: Result<Option<crate::factory::chain_event::event::EventEvent>, ErrorCode>,
)
    requires
        ToggleEventMarket::outcome(pre, post, params, r),
    ensures
        r is Ok ==> {
            let before = pre.event_market_account.data;
            let after = post.event_market_account.data;
            &&& params.fetch_oracle_data ==> after.open_raw_data == Some(pre.oracle_data.data.raw_data)
                && after.open_phase == Some(pre.oracle_data.data.phase)
            &&& !params.fetch_oracle_data ==> after.open_raw_data == before.open_raw_data
                && after.open_phase == before.open_phase
            &&& after.is_opened == (if params.toggle { !before.is_opened } else { before.is_opened })
            &&& after.result == before.result
        },
        ({
            &&& pre.governor == pre.global_config.data.governor
            &&& is_global_config_key(pre.global_config.key)
            &&& pre.event_config.key == pre.event_market_account.data.event_config
            &&& params.fetch_oracle_data ==> oracle_data_address(pre.event_config.data.oracle_config@) == Some(pre.oracle_data.key@)
            &&& pre.event_market_account.data.result == 0
        }) ==> r is Ok,
{
}

/// A choice is refused for time only outside the market's window: at any
/// positive time before both its close and its expiry, a choice on an open,
/// unresolved market, of one of its options, by a user who holds their SBT
/// unstaked and has no position, through the derived accounts, succeeds;
/// it stakes the SBT on the option, opens the position, and counts one more
/// stake. A choice that succeeds was made within the window.
pub proof fn law_choice_within_the_window_succeeds(
    pre: Choose,
    post: Choose,
    params: ChooseParams,
    now: i64,
    r: Result<crate::factory::chain_event::choice::ChooseEvent, ErrorCode>,
)
    requires
        Choose::outcome(pre, post, params, now, r),
    ensures
        r is Ok ==> {
            &&& now > 0
            &&& (now as u64) < pre.event_market.data.close_ts
            &&& (now as u64) < pre.event_market.data.expiry_ts
            &&& post.marker.data.indicate == params.indicate
            &&& post.user_position.data.existed
            &&& post.event_position.data.amount == pre.event_position.data.amount + 1
        },
        ({
            let m = pre.event_market.data;
            &&& pre.addresses_hold(params.indicate)
            &&& pre.event_config.key == m.event_config
            &&& m.is_opened
            &&& m.result == 0
            &&& now > 0
            &&& (now as u64) < m.close_ts
            &&& (now as u64) < m.expiry_ts
            &&& 1 <= params.indicate <= m.option
            &&& pre.token_account.data.amount > 0
            &&& pre.marker.data.indicate == 0
            &&& !pre.user_position.data.existed
            &&& pre.event_position.data.amount < u64::MAX
        }) ==> r is Ok,
{
}

} // verus!
