//! The constant seeds from which the programs derive their account addresses.
use vstd::prelude::*;

verus! {

/// The seed `b"global_config"`.
pub open spec fn global_config_seed() -> Seq<u8> {
    seq![103u8, 108, 111, 98, 97, 108, 95, 99, 111, 110, 102, 105, 103]
}

/// The bytes of the seed `b"global_config"`.
pub fn global_config_seed_bytes() -> (v: Vec<u8>)
    ensures
        v@ == global_config_seed(),
{
    let v: Vec<u8> = vec![103u8, 108, 111, 98, 97, 108, 95, 99, 111, 110, 102, 105, 103];
    assert(v@ =~= global_config_seed());
    v
}

/// The seed `b"ft_vision_mining_pda"`.
pub open spec fn ft_vision_mining_pda_seed() -> Seq<u8> {
    seq![102u8, 116, 95, 118, 105, 115, 105, 111, 110, 95, 109, 105, 110, 105, 110, 103, 95, 112, 100, 97]
}

/// The bytes of the seed `b"ft_vision_mining_pda"`.
pub fn ft_vision_mining_pda_seed_bytes() -> (v: Vec<u8>)
    ensures
        v@ == ft_vision_mining_pda_seed(),
{
    let v: Vec<u8> = vec![102u8, 116, 95, 118, 105, 115, 105, 111, 110, 95, 109, 105, 110, 105, 110, 103, 95, 112, 100, 97];
    assert(v@ =~= ft_vision_mining_pda_seed());
    v
}

/// The seed `b"ft_event_mining_pda"`.
pub open spec fn ft_event_mining_pda_seed() -> Seq<u8> {
    seq![102u8, 116, 95, 101, 118, 101, 110, 116, 95, 109, 105, 110, 105, 110, 103, 95, 112, 100, 97]
}

/// The bytes of the seed `b"ft_event_mining_pda"`.
pub fn ft_event_mining_pda_seed_bytes() -> (v: Vec<u8>)
    ensures
        v@ == ft_event_mining_pda_seed(),
{
    let v: Vec<u8> = vec![102u8, 116, 95, 101, 118, 101, 110, 116, 95, 109, 105, 110, 105, 110, 103, 95, 112, 100, 97];
    assert(v@ =~= ft_event_mining_pda_seed());
    v
}

/// The seed `b"ft_stake_mining_pda"`.
pub open spec fn ft_stake_mining_pda_seed() -> Seq<u8> {
    seq![102u8, 116, 95, 115, 116, 97, 107, 101, 95, 109, 105, 110, 105, 110, 103, 95, 112, 100, 97]
}

/// The bytes of the seed `b"ft_stake_mining_pda"`.
pub fn ft_stake_mining_pda_seed_bytes() -> (v: Vec<u8>)
    ensures
        v@ == ft_stake_mining_pda_seed(),
{
    let v: Vec<u8> = vec![102u8, 116, 95, 115, 116, 97, 107, 101, 95, 109, 105, 110, 105, 110, 103, 95, 112, 100, 97];
    assert(v@ =~= ft_stake_mining_pda_seed());
    v
}

/// The seed `b"event"`.
pub open spec fn event_seed() -> Seq<u8> {
    seq![101u8, 118, 101, 110, 116]
}

/// The bytes of the seed `b"event"`.
pub fn event_seed_bytes() -> (v: Vec<u8>)
    ensures
        v@ == event_seed(),
{
    let v: Vec<u8> = vec![101u8, 118, 101, 110, 116];
    assert(v@ =~= event_seed());
    v
}

/// The seed `b"event_market"`.
pub open spec fn event_market_seed() -> Seq<u8> {
    seq![101u8, 118, 101, 110, 116, 95, 109, 97, 114, 107, 101, 116]
}

/// The bytes of the seed `b"event_market"`.
pub fn event_market_seed_bytes() -> (v: Vec<u8>)
    ensures
        v@ == event_market_seed(),
{
    let v: Vec<u8> = vec![101u8, 118, 101, 110, 116, 95, 109, 97, 114, 107, 101, 116];
    assert(v@ =~= event_market_seed());
    v
}

/// The seed `b"event_position"`.
pub open spec fn event_position_seed() -> Seq<u8> {
    seq![101u8, 118, 101, 110, 116, 95, 112, 111, 115, 105, 116, 105, 111, 110]
}

/// The bytes of the seed `b"event_position"`.
pub fn event_position_seed_bytes() -> (v: Vec<u8>)
    ensures
        v@ == event_position_seed(),
{
    let v: Vec<u8> = vec![101u8, 118, 101, 110, 116, 95, 112, 111, 115, 105, 116, 105, 111, 110];
    assert(v@ =~= event_position_seed());
    v
}

/// The seed `b"user_position"`.
pub open spec fn user_position_seed() -> Seq<u8> {
    seq![117u8, 115, 101, 114, 95, 112, 111, 115, 105, 116, 105, 111, 110]
}

/// The bytes of the seed `b"user_position"`.
pub fn user_position_seed_bytes() -> (v: Vec<u8>)
    ensures
        v@ == user_position_seed(),
{
    let v: Vec<u8> = vec![117u8, 115, 101, 114, 95, 112, 111, 115, 105, 116, 105, 111, 110];
    assert(v@ =~= user_position_seed());
    v
}

/// The seed `b"marker"`.
pub open spec fn marker_seed() -> Seq<u8> {
    seq![109u8, 97, 114, 107, 101, 114]
}

/// The bytes of the seed `b"marker"`.
pub fn marker_seed_bytes() -> (v: Vec<u8>)
    ensures
        v@ == marker_seed(),
{
    let v: Vec<u8> = vec![109u8, 97, 114, 107, 101, 114];
    assert(v@ =~= marker_seed());
    v
}

/// The seed `b"mint"`.
pub open spec fn mint_seed() -> Seq<u8> {
    seq![109u8, 105, 110, 116]
}

/// The bytes of the seed `b"mint"`.
pub fn mint_seed_bytes() -> (v: Vec<u8>)
    ensures
        v@ == mint_seed(),
{
    let v: Vec<u8> = vec![109u8, 105, 110, 116];
    assert(v@ =~= mint_seed());
    v
}

/// The seed `b"mint_config"`.
pub open spec fn mint_config_seed() -> Seq<u8> {
    seq![109u8, 105, 110, 116, 95, 99, 111, 110, 102, 105, 103]
}

/// The bytes of the seed `b"mint_config"`.
pub fn mint_config_seed_bytes() -> (v: Vec<u8>)
    ensures
        v@ == mint_config_seed(),
{
    let v: Vec<u8> = vec![109u8, 105, 110, 116, 95, 99, 111, 110, 102, 105, 103];
    assert(v@ =~= mint_config_seed());
    v
}

/// The seed `b"authority"`.
pub open spec fn authority_seed() -> Seq<u8> {
    seq![97u8, 117, 116, 104, 111, 114, 105, 116, 121]
}

/// The bytes of the seed `b"authority"`.
pub fn authority_seed_bytes() -> (v: Vec<u8>)
    ensures
        v@ == authority_seed(),
{
    let v: Vec<u8> = vec![97u8, 117, 116, 104, 111, 114, 105, 116, 121];
    assert(v@ =~= authority_seed());
    v
}

/// The seed `b"collection"`.
pub open spec fn collection_seed() -> Seq<u8> {
    seq![99u8, 111, 108, 108, 101, 99, 116, 105, 111, 110]
}

/// The bytes of the seed `b"collection"`.
pub fn collection_seed_bytes() -> (v: Vec<u8>)
    ensures
        v@ == collection_seed(),
{
    let v: Vec<u8> = vec![99u8, 111, 108, 108, 101, 99, 116, 105, 111, 110];
    assert(v@ =~= collection_seed());
    v
}

/// The seed `b"sbt_mint"`.
pub open spec fn sbt_mint_seed() -> Seq<u8> {
    seq![115u8, 98, 116, 95, 109, 105, 110, 116]
}

/// The bytes of the seed `b"sbt_mint"`.
pub fn sbt_mint_seed_bytes() -> (v: Vec<u8>)
    ensures
        v@ == sbt_mint_seed(),
{
    let v: Vec<u8> = vec![115u8, 98, 116, 95, 109, 105, 110, 116];
    assert(v@ =~= sbt_mint_seed());
    v
}

/// The seed `b"oracle-data"`.
pub open spec fn oracle_data_seed() -> Seq<u8> {
    seq![111u8, 114, 97, 99, 108, 101, 45, 100, 97, 116, 97]
}

/// The bytes of the seed `b"oracle-data"`.
pub fn oracle_data_seed_bytes() -> (v: Vec<u8>)
    ensures
        v@ == oracle_data_seed(),
{
    let v: Vec<u8> = vec![111u8, 114, 97, 99, 108, 101, 45, 100, 97, 116, 97];
    assert(v@ =~= oracle_data_seed());
    v
}

/// The seed `b"oracle-config"`.
pub open spec fn oracle_config_seed() -> Seq<u8> {
    seq![111u8, 114, 97, 99, 108, 101, 45, 99, 111, 110, 102, 105, 103]
}

/// The bytes of the seed `b"oracle-config"`.
pub fn oracle_config_seed_bytes() -> (v: Vec<u8>)
    ensures
        v@ == oracle_config_seed(),
{
    let v: Vec<u8> = vec![111u8, 114, 97, 99, 108, 101, 45, 99, 111, 110, 102, 105, 103];
    assert(v@ =~= oracle_config_seed());
    v
}

/// The seed `b"metadata"`.
pub open spec fn metadata_seed() -> Seq<u8> {
    seq![109u8, 101, 116, 97, 100, 97, 116, 97]
}

/// The bytes of the seed `b"metadata"`.
pub fn metadata_seed_bytes() -> (v: Vec<u8>)
    ensures
        v@ == metadata_seed(),
{
    let v: Vec<u8> = vec![109u8, 101, 116, 97, 100, 97, 116, 97];
    assert(v@ =~= metadata_seed());
    v
}

/// The seed `b"edition"`.
pub open spec fn edition_seed() -> Seq<u8> {
    seq![101u8, 100, 105, 116, 105, 111, 110]
}

/// The bytes of the seed `b"edition"`.
pub fn edition_seed_bytes() -> (v: Vec<u8>)
    ensures
        v@ == edition_seed(),
{
    let v: Vec<u8> = vec![101u8, 100, 105, 116, 105, 111, 110];
    assert(v@ =~= edition_seed());
    v
}

/// The big-endian bytes of `x`.
pub open spec fn be_bytes(x: u64) -> Seq<u8> {
    seq![
        ((x >> 56) & 0xff) as u8,
        ((x >> 48) & 0xff) as u8,
        ((x >> 40) & 0xff) as u8,
        ((x >> 32) & 0xff) as u8,
        ((x >> 24) & 0xff) as u8,
        ((x >> 16) & 0xff) as u8,
        ((x >> 8) & 0xff) as u8,
        (x & 0xff) as u8,
    ]
}

/// The big-endian bytes of `x`, as `u64::to_be_bytes` gives them.
pub fn u64_to_be_bytes(x: u64) -> (v: Vec<u8>)
    ensures
        v@ == be_bytes(x),
{
    let v: Vec<u8> = vec![
        ((x >> 56) & 0xff) as u8,
        ((x >> 48) & 0xff) as u8,
        ((x >> 40) & 0xff) as u8,
        ((x >> 32) & 0xff) as u8,
        ((x >> 24) & 0xff) as u8,
        ((x >> 16) & 0xff) as u8,
        ((x >> 8) & 0xff) as u8,
        (x & 0xff) as u8,
    ];
    assert(v@ =~= be_bytes(x));
    v
}

/// A one-byte seed.
pub fn byte_seed(b: u8) -> (v: Vec<u8>)
    ensures
        v@ == seq![b],
{
    let v: Vec<u8> = vec![b];
    assert(v@ =~= seq![b]);
    v
}

} // verus!
