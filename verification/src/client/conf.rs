//! The feeder's configuration, as read from its TOML file.
use vstd::prelude::*;
use vstd::string::StrSliceExecFns;

verus! {

/// The whole configuration.
#[derive(Clone, Debug)]
pub struct ClientConfig {
    pub solana: SolanaConfig,
    pub oracle: OracleConfig,
    pub event: EventConfig,
    pub market: Market,
    pub metadata: Metadata,
    pub tokenomics: Tokenomics,
    pub api: Api,
}

/// Where and as whom the feeder talks to the chain.
#[derive(Clone, Debug)]
pub struct SolanaConfig {
    pub rpc_url: String,
    pub ws_url: String,
    pub keypair_path: String,
    pub commitment: String,
    pub network: String,
}

/// The oracle the feeder writes to.
#[derive(Clone, Debug)]
pub struct OracleConfig {
    pub config_name: String,
    pub config_description: String,
    pub total_phase: u8,
    pub authority_pubkey: String,
    pub interval: u64,
    pub program_id: String,
}

/// The prediction-market program the feeder drives.
#[derive(Clone, Debug)]
pub struct EventConfig {
    pub program_id: String,
    pub vision_mining_admin_pubkey: String,
}

/// Which markets the feeder opens on its own.
#[derive(Clone, Copy, Debug)]
pub struct Market {
    pub hourly_create: bool,
    pub daily_create: bool,
}

/// Names, symbols and URIs of the tokens the feeder creates.
#[derive(Clone, Debug)]
pub struct Metadata {
    pub ft_token_name: String,
    pub ft_token_symbol: String,
    pub ft_token_url: String,
    pub ft_token_decimal: u8,
    pub sbt_token_name: String,
    pub sbt_token_symbol: String,
    pub sbt_token_url: String,
    pub event_metadata_url: String,
    pub fear_sbt_token_name: String,
    pub fear_sbt_token_symbol: String,
    pub fear_sbt_token_url: String,
    pub greed_sbt_token_name: String,
    pub greed_sbt_token_symbol: String,
    pub greed_sbt_token_url: String,
}

/// Token amounts of the mining pools and of a market's prize.
#[derive(Clone, Copy, Debug)]
pub struct Tokenomics {
    pub vision_mining: u64,
    pub event_mining: u64,
    pub event_prize: u64,
}

/// The web API.
#[derive(Clone, Copy, Debug)]
pub struct Api {
    pub port: u64,
}

/// Whether two texts are the same.
fn same_text(a: &str, b: &str) -> (r: bool)
    ensures
        r == (a@ == b@),
{
    let n = a.unicode_len();
    if n != b.unicode_len() {
        return false;
    }
    let mut i: usize = 0;
    while i < n
        invariant
            n == a@.len(),
            n == b@.len(),
            0 <= i <= n,
            forall|j: int| 0 <= j < i ==> a@[j] == b@[j],
        decreases n - i,
    {
        if a.get_char(i) != b.get_char(i) {
            return false;
        }
        i = i + 1;
    }
    assert(a@ =~= b@);
    true
}

/// The query that points an explorer link at the network `network`.
pub open spec fn explorer_suffix_of(network: Seq<char>) -> Seq<char> {
    if network == "devnet"@ {
        "?cluster=devnet"@
    } else if network == "testnet"@ {
        "?cluster=testnet"@
    } else {
        ""@
    }
}

impl SolanaConfig {
    /// The query that points an explorer link at the configured network:
    /// the devnet and testnet clusters are named, any other network gets
    /// none.
    pub fn explorer_suffix(&self) -> (s: &'static str)
        ensures
            s@ == explorer_suffix_of(self.network@),
    {
        if same_text(self.network.as_str(), "devnet") {
            "?cluster=devnet"
        } else if same_text(self.network.as_str(), "testnet") {
            "?cluster=testnet"
        } else {
            ""
        }
    }
}

} // verus!
