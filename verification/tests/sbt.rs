use monitare::context::Account;
use monitare::error::{ErrorCode, InstructionError};
use monitare::factory::chain_event::sbt::SBTMintEventType;
use monitare::factory::instructions::change_vision_mining_admin::ChangeVisionMiningAdmin;
use monitare::factory::instructions::create_event_sbt::{CreateEventSBT, CreateEventSBTParams};
use monitare::factory::instructions::create_sbt::{CreateSBT, CreateSBTParams};
use monitare::factory::instructions::mint_sbt::MintSBT;
use monitare::factory::instructions::vision_mining_claim::{VisionMiningClaim, VisionMiningClaimParams};
use monitare::factory::metaplex::PrintSupply;
use monitare::factory::state::event_config::{EventConfig, EventType};
use monitare::factory::state::global_config::GlobalConfig;
use monitare::factory::state::marker::Marker;
use monitare::factory::state::mint_config::MintConfig;
use monitare::factory::state::url::UriResource;
use monitare::factory::token::{Mint, TokenAccount};
use monitare::factory::utils::get_ata;
use monitare::pubkey::{factory_id, find_program_address, Pubkey};

fn key(b: u8) -> Pubkey {
    Pubkey::new_from_array([b; 32])
}

fn derived(seeds: Vec<Vec<u8>>) -> (Pubkey, u8) {
    find_program_address(&seeds, &factory_id()).unwrap()
}

fn collection() -> Pubkey {
    derived(vec![b"collection".to_vec()]).0
}

fn user_sbt_mint(user: Pubkey) -> (Pubkey, u8) {
    derived(vec![b"sbt_mint".to_vec(), user.0.to_vec()])
}

fn option_mint(event_config: Pubkey, option: u8) -> (Pubkey, u8) {
    derived(vec![b"sbt_mint".to_vec(), event_config.0.to_vec(), vec![option]])
}

fn sbt_params() -> CreateSBTParams {
    CreateSBTParams { name: "Seer".to_string(), symbol: "SEER".to_string(), uri: "s".to_string() }
}

fn create_sbt_ctx() -> CreateSBT {
    let collection_mint = collection();
    let mint = user_sbt_mint(key(20)).0;
    CreateSBT {
        payer: key(20),
        authority: MintConfig::find_authority(collection_mint).unwrap().0,
        collection_mint: Account { key: collection_mint, data: Mint { supply: 1, decimals: 0 } },
        mint,
        metadata: MintConfig::find_metadata(mint).unwrap().0,
        master_edition: MintConfig::find_master_edition(mint).unwrap().0,
    }
}

#[test]
fn user_sbt_is_a_non_transferable_nft_of_the_collection() {
    let c = create_sbt_ctx();
    let (mint, bump) = user_sbt_mint(key(20));
    let out = c.process(sbt_params(), bump).unwrap();
    let n = &out.new_mint;
    assert_eq!((n.mint, n.payer, n.space, n.decimals, n.non_transferable), (mint, key(20), 170, 0, true));
    assert_eq!((n.mint_authority, n.freeze_authority), (c.authority, Some(c.authority)));
    assert_eq!(n.signer_seeds, vec![b"sbt_mint".to_vec(), key(20).0.to_vec(), vec![bump]]);
    let m = &out.metadata;
    assert_eq!((m.collection, m.is_mutable, m.print_supply), (Some(collection()), false, Some(PrintSupply::Zero)));
    assert_eq!((m.name.as_str(), m.creator, m.collection_size), ("Seer", None, None));
    assert_eq!((out.event.event_type, out.event.mint_key, out.event.user_key), (SBTMintEventType::CreateSBT, mint, key(20)));
}

#[test]
fn user_sbt_accounts_must_be_derived() {
    let (_, bump) = user_sbt_mint(key(20));
    let mut someone_elses = create_sbt_ctx();
    someone_elses.mint = user_sbt_mint(key(21)).0;
    someone_elses.metadata = MintConfig::find_metadata(someone_elses.mint).unwrap().0;
    someone_elses.master_edition = MintConfig::find_master_edition(someone_elses.mint).unwrap().0;
    assert_eq!(someone_elses.process(sbt_params(), bump), Err(ErrorCode::UnexpectedAccount));
    let mut impostor = create_sbt_ctx();
    impostor.authority = key(41);
    assert_eq!(impostor.process(sbt_params(), bump), Err(ErrorCode::UnexpectedAccount));
    let mut other_collection = create_sbt_ctx();
    other_collection.collection_mint.key = key(42);
    other_collection.authority = MintConfig::find_authority(key(42)).unwrap().0;
    assert_eq!(other_collection.process(sbt_params(), bump), Err(ErrorCode::UnexpectedAccount));
}

fn mint_sbt_ctx(supply: u64) -> MintSBT {
    let collection_mint = collection();
    let mint = user_sbt_mint(key(20)).0;
    MintSBT {
        payer: key(20),
        authority: MintConfig::find_authority(collection_mint).unwrap().0,
        collection_mint: Account { key: collection_mint, data: Mint { supply: 1, decimals: 0 } },
        collection_metadata: MintConfig::find_metadata(collection_mint).unwrap().0,
        collection_master_edition: MintConfig::find_master_edition(collection_mint).unwrap().0,
        mint: Account { key: mint, data: Mint { supply, decimals: 0 } },
        token_account: Account { key: key(43), data: TokenAccount { mint, owner: key(20), amount: 0 } },
        marker: Account { key: Marker::find_marker_account(key(20), mint).unwrap().0, data: Marker::default() },
        metadata: MintConfig::find_metadata(mint).unwrap().0,
        master_edition: MintConfig::find_master_edition(mint).unwrap().0,
    }
}

#[test]
fn minting_the_sbt_gives_one_token_verified_in_the_collection() {
    let mut c = mint_sbt_ctx(0);
    c.marker.data = Marker { indicate: 1, event_market: Some(key(32)), bump: 7 };
    let out = c.process().unwrap();
    assert_eq!((out.mint.token, out.mint.mint, out.mint.amount), (key(43), c.mint.key, 1));
    assert_eq!((out.mint.authority, out.verify.authority), (c.authority, c.authority));
    assert_eq!((out.verify.metadata, out.verify.collection_mint), (c.metadata, collection()));
    assert_eq!(out.event.event_type, SBTMintEventType::MintSBT);
    assert_eq!(c.marker.data, Marker { indicate: 0, event_market: None, bump: 0 });
}

#[test]
fn sbt_is_minted_once_and_at_its_accounts() {
    let mut minted = mint_sbt_ctx(1);
    minted.marker.data.bump = 7;
    assert_eq!(minted.process(), Err(ErrorCode::MintExceedMaxSupply));
    assert_eq!(minted.marker.data.bump, 7);
    let mut other_marker = mint_sbt_ctx(0);
    other_marker.marker.key = key(23);
    assert_eq!(other_marker.process(), Err(ErrorCode::UnexpectedAccount));
    let mut other_mint = mint_sbt_ctx(0);
    other_mint.mint.key = key(40);
    other_mint.marker.key = Marker::find_marker_account(key(20), key(40)).unwrap().0;
    other_mint.metadata = MintConfig::find_metadata(key(40)).unwrap().0;
    other_mint.master_edition = MintConfig::find_master_edition(key(40)).unwrap().0;
    assert_eq!(other_mint.process(), Err(ErrorCode::UnexpectedAccount));
}

fn event_sbt_ctx(option: u8) -> CreateEventSBT {
    let collection_mint = collection();
    let mint = option_mint(key(30), option).0;
    CreateEventSBT {
        payer: key(20),
        governor: key(9),
        global_config: Account { key: GlobalConfig::find_global_config_account().unwrap().0, data: GlobalConfig { governor: key(9), ..GlobalConfig::default() } },
        event_config: Account {
            key: key(30),
            data: EventConfig {
                creator: key(9),
                resolver: key(9),
                event_type: EventType::RawDataEventMarket,
                oracle_config: key(31),
                option: 2,
                index: 1,
                bump: 250,
                metadata_json_url: UriResource::default(),
            },
        },
        authority: MintConfig::find_authority(collection_mint).unwrap().0,
        collection_mint: Account { key: collection_mint, data: Mint { supply: 1, decimals: 0 } },
        mint,
        metadata: MintConfig::find_metadata(mint).unwrap().0,
        master_edition: MintConfig::find_master_edition(mint).unwrap().0,
    }
}

fn event_sbt_params(option: u8) -> CreateEventSBTParams {
    CreateEventSBTParams { name: "Up".to_string(), symbol: "UP".to_string(), uri: "u".to_string(), option }
}

#[test]
fn option_sbt_is_a_printable_master_edition() {
    let c = event_sbt_ctx(1);
    let (mint, bump) = option_mint(key(30), 1);
    let (_, authority_bump) = MintConfig::find_authority(collection()).unwrap();
    let out = c.process(event_sbt_params(1), bump, authority_bump).unwrap();
    assert_eq!((out.new_mint.mint, out.new_mint.space, out.new_mint.non_transferable), (mint, 170, true));
    assert_eq!(out.new_mint.signer_seeds, vec![b"sbt_mint".to_vec(), key(30).0.to_vec(), vec![1], vec![bump]]);
    assert_eq!((out.metadata.print_supply, out.metadata.is_mutable), (Some(PrintSupply::Unlimited), true));
    assert_eq!(out.metadata.collection, None);
}

#[test]
fn option_sbt_refusals() {
    let (_, authority_bump) = MintConfig::find_authority(collection()).unwrap();
    let mut stranger = event_sbt_ctx(1);
    stranger.governor = key(1);
    assert_eq!(stranger.process(event_sbt_params(1), 1, authority_bump), Err(ErrorCode::Unauthorized));
    let mut forged = event_sbt_ctx(1);
    forged.global_config.key = key(50);
    assert_eq!(forged.process(event_sbt_params(1), 1, authority_bump), Err(ErrorCode::UnexpectedAccount));
    assert_eq!(event_sbt_ctx(3).process(event_sbt_params(3), 1, authority_bump), Err(ErrorCode::InvalidArgument));
    assert_eq!(event_sbt_ctx(0).process(event_sbt_params(0), 1, authority_bump), Err(ErrorCode::InvalidArgument));
    assert_eq!(event_sbt_ctx(2).process(event_sbt_params(1), 1, authority_bump), Err(ErrorCode::UnexpectedAccount));
}

fn vision_ctx() -> VisionMiningClaim {
    let mint = MintConfig::find_mint(None).unwrap().0;
    let pda = GlobalConfig::find_vision_mining_authority().unwrap().0;
    let token_program = key(54);
    VisionMiningClaim {
        payer: key(20),
        vision_mining_admin: key(7),
        global_config: Account {
            key: GlobalConfig::find_global_config_account().unwrap().0,
            data: GlobalConfig { vision_mining_admin: key(7), vision_mining_bump: 253, ..GlobalConfig::default() },
        },
        mint: Account { key: mint, data: Mint { supply: 1_000_000, decimals: 9 } },
        vision_mining_pda: pda,
        vision_mining_token_account: Account {
            key: get_ata(&pda, &mint, &token_program).unwrap(),
            data: TokenAccount { mint, owner: pda, amount: 1_000 },
        },
        token_account: Account { key: key(43), data: TokenAccount { mint, owner: key(20), amount: 10 } },
        token_program,
    }
}

#[test]
fn vision_claim_moves_the_amount() {
    let c = vision_ctx();
    let (t, e) = c.process_at(VisionMiningClaimParams { amount: 100, valid_until_time: 5_000 }, 1_000).unwrap();
    assert_eq!((t.from, t.to, t.authority), (c.vision_mining_token_account.key, key(43), c.vision_mining_pda));
    assert_eq!((t.amount, t.decimals), (100, 9));
    assert_eq!(t.signer_seeds, vec![b"ft_vision_mining_pda".to_vec(), vec![253]]);
    assert_eq!((e.from_change.unwrap().new, e.to_change.unwrap().new), (900, 110));
}

#[test]
fn vision_claim_refusals() {
    let c = vision_ctx();
    let p = VisionMiningClaimParams { amount: 100, valid_until_time: 5_000 };
    assert_eq!(c.process_at(p, 5_000), Err(ErrorCode::TransactionTimeout));
    assert_eq!(c.process_at(p, 0), Err(ErrorCode::Overflow));
    assert_eq!(
        c.process_at(VisionMiningClaimParams { amount: 1_001, valid_until_time: 5_000 }, 1_000),
        Err(ErrorCode::NotSufficientBalance)
    );
    let mut stranger = vision_ctx();
    stranger.vision_mining_admin = key(1);
    assert_eq!(stranger.process_at(p, 1_000), Err(ErrorCode::Unauthorized));
    assert_eq!(stranger.process(p), Err(InstructionError::Code(ErrorCode::Unauthorized)));
    let mut forged = vision_ctx();
    forged.global_config.key = key(50);
    assert_eq!(forged.process(p), Err(InstructionError::Code(ErrorCode::UnexpectedAccount)));
    let mut other_pda = vision_ctx();
    other_pda.vision_mining_pda = key(44);
    other_pda.vision_mining_token_account.key = get_ata(&key(44), &other_pda.mint.key, &key(54)).unwrap();
    assert_eq!(other_pda.process_at(p, 1_000), Err(ErrorCode::UnexpectedAccount));
    let mut elsewhere = vision_ctx();
    elsewhere.vision_mining_token_account.key = key(45);
    assert_eq!(elsewhere.process(p), Err(InstructionError::Code(ErrorCode::UnexpectedAccount)));
    assert_eq!(c.process(p), Err(InstructionError::ClockUnavailable));
}

#[test]
fn only_the_admin_of_the_real_configuration_changes_the_vision_admin() {
    let global = GlobalConfig::find_global_config_account().unwrap().0;
    let mut c = ChangeVisionMiningAdmin {
        global_config: Account { key: key(50), data: GlobalConfig { admin: key(9), ..GlobalConfig::default() } },
        user: key(9),
        vision_mining_admin_pubkey: key(7),
    };
    assert_eq!(c.process(), Err(ErrorCode::UnexpectedAccount));
    c.global_config.key = global;
    c.user = key(1);
    assert_eq!(c.process(), Err(ErrorCode::Unauthorized));
    c.user = key(9);
    assert_eq!(c.process(), Ok(()));
    assert_eq!(c.global_config.data.vision_mining_admin, key(7));
}
