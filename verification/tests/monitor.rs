use monitare::account_data::AccountError;
use monitare::context::{Account, Context};
use monitare::error::{ErrorCode, InstructionError};
use monitare::factory::utils::get_oracle_data_account_pubkey;
use monitare::monitor::event::{U64ValueChange, U8ValueChange};
use monitare::monitor::instructions::{
    AddAuthorityToOracleConfig, InitializeOracleConfig, InitializeOracleData, RemoveAuthorityFromOracleConfig, SetOracleData,
};
use monitare::monitor::program::{
    initialize_oracle_config, InitializeOracleConfig as ConfigAccounts, InitializeOracleConfigBumps,
};
use monitare::monitor::state::{find_oracle_config_address, OracleConfig, OracleData};
use monitare::pubkey::{monitor_id, Pubkey};

fn key(b: u8) -> Pubkey {
    Pubkey([b; 32])
}

fn config(admin: Pubkey, authorities: Vec<Pubkey>, total_phases: u8) -> OracleConfig {
    OracleConfig {
        name: "fng".to_string(),
        description: "fear and greed".to_string(),
        total_phases,
        authority_pubkeys: authorities,
        admin,
        bump: 255,
    }
}

fn set_ctx(user: Pubkey) -> SetOracleData {
    SetOracleData {
        config: Account { key: key(1), data: config(key(9), vec![key(2)], 2) },
        oracle: Account {
            key: get_oracle_data_account_pubkey(key(1)).unwrap(),
            data: OracleData { config: key(1), phase: 0, raw_data: 40, decimals: 0, previous_timestamp: 0, timestamp: 100, slot: 0, bump: 254 },
        },
        user,
    }
}

#[test]
fn admin_adds_and_removes_authorities() {
    let mut c = config(key(9), vec![key(2)], 2);
    assert_eq!(c.add_authority(key(9), key(3)), Ok(()));
    assert!(c.has_authority(&key(3)));
    assert_eq!(c.add_authority(key(9), key(3)), Ok(()));
    assert_eq!(c.authority_pubkeys, vec![key(2), key(3)]);
    assert_eq!(c.remove_authority(key(9), key(2)), Ok(()));
    assert!(!c.has_authority(&key(2)));
    assert_eq!(c.authority_pubkeys, vec![key(3)]);
}

#[test]
fn only_the_admin_changes_authorities() {
    let mut c = config(key(9), vec![key(2)], 2);
    assert_eq!(c.add_authority(key(2), key(3)), Err(ErrorCode::Unauthorized));
    assert_eq!(c.remove_authority(key(2), key(2)), Err(ErrorCode::Unauthorized));
    assert_eq!(c.authority_pubkeys, vec![key(2)]);
}

#[test]
fn authority_list_is_capped_at_five() {
    let mut c = config(key(9), vec![key(1), key(2), key(3), key(4), key(5)], 2);
    assert_eq!(c.add_authority(key(9), key(6)), Err(ErrorCode::TooManyAuthorities));
    assert_eq!(c.authority_pubkeys.len(), 5);
    assert_eq!(ErrorCode::TooManyAuthorities.message(), "Authorities limit reached");
}

#[test]
fn removing_an_unknown_authority_is_refused() {
    let mut c = config(key(9), vec![key(2)], 2);
    assert_eq!(c.remove_authority(key(9), key(7)), Err(ErrorCode::AuthorityNotFound));
    assert_eq!(ErrorCode::AuthorityNotFound.message(), "Authority not found");
}

#[test]
fn add_then_remove_restores_the_list() {
    let mut c = config(key(9), vec![key(2), key(4)], 2);
    c.add_authority(key(9), key(5)).unwrap();
    c.remove_authority(key(9), key(5)).unwrap();
    assert_eq!(c.authority_pubkeys, vec![key(2), key(4)]);
}

#[test]
fn initialize_checks_name_and_description() {
    let name = "n".repeat(31);
    let mut ix = InitializeOracleConfig {
        config: Account { key: find_oracle_config_address(&name).unwrap(), data: config(key(0), vec![], 0) },
        user: key(9),
        authority_pubkey: key(2),
    };
    assert_eq!(ix.process("n".repeat(32), "d".to_string(), 2, 250), Err(ErrorCode::StringTooLong));
    assert_eq!(ix.process("n".to_string(), "d".repeat(200), 2, 250), Err(ErrorCode::StringTooLong));
    assert_eq!(ix.process("m".repeat(31), "d".repeat(199), 2, 250), Err(ErrorCode::UnexpectedAccount));
    assert_eq!(ix.config.data.admin, key(0));
    assert_eq!(ix.process(name, "d".repeat(199), 2, 250), Ok(()));
    assert_eq!(ix.config.data.admin, key(9));
    assert_eq!(ix.config.data.authority_pubkeys, vec![key(2)]);
    assert_eq!((ix.config.data.total_phases, ix.config.data.bump), (2, 250));
    assert_eq!(ErrorCode::StringTooLong.message(), "The string variable is too long.");
}

#[test]
fn configuration_stands_at_the_address_of_its_name() {
    let name = "fear-and-greed".to_string();
    let at_name = find_oracle_config_address(&name).unwrap();
    let mut ctx = Context {
        program_id: monitor_id(),
        accounts: ConfigAccounts {
            config: Account { key: at_name, data: config(key(0), vec![], 2) },
            user: key(9),
            authority_pubkeys: vec![key(2), key(3)],
        },
        remaining_accounts: vec![],
        bumps: InitializeOracleConfigBumps { config: 251 },
    };
    assert_eq!(initialize_oracle_config(&mut ctx, name.clone(), "d".to_string(), 2), Ok(()));
    assert_eq!((ctx.accounts.config.data.admin, ctx.accounts.config.data.bump), (key(9), 251));
    assert_eq!(ctx.accounts.config.data.authority_pubkeys, vec![key(2), key(3)]);
    ctx.accounts.config.key = key(1);
    assert_eq!(initialize_oracle_config(&mut ctx, name, "d".to_string(), 2), Err(ErrorCode::UnexpectedAccount));
}

#[test]
fn data_account_stands_at_the_address_of_its_configuration() {
    let mut ix = InitializeOracleData {
        config: Account { key: key(1), data: config(key(9), vec![key(2)], 2) },
        oracle: Account { key: key(3), data: set_ctx(key(2)).oracle.data },
        user: key(2),
    };
    assert_eq!(ix.process(250), Err(ErrorCode::UnexpectedAccount));
    ix.oracle.key = get_oracle_data_account_pubkey(key(1)).unwrap();
    ix.user = key(8);
    assert_eq!(ix.process(250), Err(ErrorCode::Unauthorized));
    ix.user = key(2);
    assert_eq!(ix.process(250), Ok(()));
    assert_eq!((ix.oracle.data.config, ix.oracle.data.bump), (key(1), 250));
    let mut elsewhere = set_ctx(key(2));
    elsewhere.oracle.key = key(3);
    assert_eq!(elsewhere.process_at(1, 55, 0, 254, 9, 200), Err(ErrorCode::UnexpectedAccount));
    assert_eq!(elsewhere.process(1, 55, 0, 254), Err(InstructionError::Code(ErrorCode::UnexpectedAccount)));
}

#[test]
fn set_oracle_data_reports_each_change() {
    let mut ix = set_ctx(key(2));
    let e = ix.process_at(1, 55, 0, 254, 9, 200).unwrap();
    assert_eq!(e.state, get_oracle_data_account_pubkey(key(1)).unwrap());
    assert_eq!(e.phase_change, Some(U8ValueChange { old: 0, new: 1 }));
    assert_eq!(e.raw_data_change, Some(U64ValueChange { old: 40, new: 55 }));
    assert_eq!(e.decimals_change, None);
    assert_eq!(e.timestamp_change, Some(U64ValueChange { old: 100, new: 200 }));
    assert_eq!((ix.oracle.data.phase, ix.oracle.data.raw_data, ix.oracle.data.timestamp), (1, 55, 200));
    assert_eq!((ix.oracle.data.previous_timestamp, ix.oracle.data.slot), (100, 9));
    let again = ix.process_at(1, 55, 0, 254, 9, 200).unwrap();
    assert_eq!(
        (again.phase_change, again.raw_data_change, again.decimals_change, again.timestamp_change),
        (None, None, None, None)
    );
    assert_eq!(ix.oracle.data.previous_timestamp, 100);
    let next = ix.process_at(1, 56, 0, 254, 12, 260).unwrap();
    assert_eq!(next.timestamp_change, Some(U64ValueChange { old: 200, new: 260 }));
    assert_eq!((ix.oracle.data.previous_timestamp, ix.oracle.data.timestamp, ix.oracle.data.slot), (200, 260, 12));
}

#[test]
fn set_oracle_data_refusals() {
    let mut ix = set_ctx(key(2));
    assert_eq!(ix.process_at(1, 55, 0, 253, 9, 200), Err(ErrorCode::InvalidArgument));
    assert_eq!(ix.process_at(2, 55, 0, 254, 9, 200), Err(ErrorCode::InvalidArgument));
    assert_eq!(ix.process_at(1, 55, 0, 254, 9, 0), Err(ErrorCode::Overflow));
    let mut stranger = set_ctx(key(8));
    assert_eq!(stranger.process_at(1, 55, 0, 254, 9, 200), Err(ErrorCode::Unauthorized));
    let mut mismatched = set_ctx(key(2));
    mismatched.oracle.data.config = key(7);
    assert_eq!(mismatched.process_at(1, 55, 0, 254, 9, 200), Err(ErrorCode::ConfigMismatched));
    assert_eq!(ix.oracle.data.raw_data, 40);
}

#[test]
fn set_oracle_data_needs_the_clock() {
    let mut ix = set_ctx(key(2));
    assert_eq!(ix.process(1, 55, 0, 254), Err(InstructionError::ClockUnavailable));
    assert_eq!(ix.oracle.data.raw_data, 40);
}

#[test]
fn set_oracle_data_refuses_before_reading_the_clock() {
    let mut ix = set_ctx(key(2));
    assert_eq!(ix.process(1, 55, 0, 253), Err(InstructionError::Code(ErrorCode::InvalidArgument)));
    assert_eq!(ix.process(2, 55, 0, 254), Err(InstructionError::Code(ErrorCode::InvalidArgument)));
    let mut stranger = set_ctx(key(8));
    assert_eq!(stranger.process(1, 55, 0, 254), Err(InstructionError::Code(ErrorCode::Unauthorized)));
    let mut mismatched = set_ctx(key(2));
    mismatched.oracle.data.config = key(7);
    assert_eq!(mismatched.process(1, 55, 0, 254), Err(InstructionError::Code(ErrorCode::ConfigMismatched)));
    assert_eq!((ix.oracle.data.raw_data, mismatched.oracle.data.raw_data), (40, 40));
}

fn oracle_bytes(d: &OracleData) -> Vec<u8> {
    let mut b = vec![26u8, 131, 25, 110, 6, 141, 10, 37];
    b.extend_from_slice(&d.config.0);
    b.push(d.phase);
    b.extend_from_slice(&d.raw_data.to_le_bytes());
    b.push(d.decimals);
    b.extend_from_slice(&d.previous_timestamp.to_le_bytes());
    b.extend_from_slice(&d.timestamp.to_le_bytes());
    b.extend_from_slice(&d.slot.to_le_bytes());
    b.push(d.bump);
    b
}

#[test]
fn stored_oracle_data_reads_back() {
    let d = OracleData { config: key(5), phase: 1, raw_data: 73, decimals: 2, previous_timestamp: 1_699_996_400, timestamp: 1_700_000_000, slot: 311_000_000, bump: 251 };
    let mut bytes = oracle_bytes(&d);
    assert_eq!(OracleData::try_deserialize(&bytes), Ok(d));
    bytes.extend_from_slice(&[0u8; 8]);
    assert_eq!(OracleData::try_deserialize(&bytes), Ok(d));
}

#[test]
fn unreadable_oracle_data_is_refused() {
    let d = OracleData { config: key(5), phase: 1, raw_data: 73, decimals: 2, previous_timestamp: 1_699_996_400, timestamp: 1_700_000_000, slot: 311_000_000, bump: 251 };
    let bytes = oracle_bytes(&d);
    assert_eq!(OracleData::try_deserialize(&bytes[..7]), Err(AccountError::AccountDiscriminatorNotFound));
    let mut other = bytes.clone();
    other[0] = 0;
    assert_eq!(OracleData::try_deserialize(&other), Err(AccountError::AccountDiscriminatorMismatch));
    assert_eq!(OracleData::try_deserialize(&bytes[..58]), Err(AccountError::AccountDidNotDeserialize));
}

fn config_bytes(c: &OracleConfig) -> Vec<u8> {
    let mut b = vec![133u8, 196, 152, 50, 27, 21, 145, 254];
    b.extend_from_slice(&(c.name.len() as u32).to_le_bytes());
    b.extend_from_slice(c.name.as_bytes());
    b.extend_from_slice(&(c.description.len() as u32).to_le_bytes());
    b.extend_from_slice(c.description.as_bytes());
    b.push(c.total_phases);
    b.extend_from_slice(&(c.authority_pubkeys.len() as u32).to_le_bytes());
    for k in &c.authority_pubkeys {
        b.extend_from_slice(&k.0);
    }
    b.extend_from_slice(&c.admin.0);
    b.push(c.bump);
    b
}

#[test]
fn stored_oracle_config_reads_back() {
    let mut c = config(key(9), vec![key(2), key(4)], 2);
    c.name = "恐惧贪婪".to_string();
    let mut bytes = config_bytes(&c);
    bytes.extend_from_slice(&[0u8; 100]);
    let back = OracleConfig::try_deserialize(&bytes).unwrap();
    assert_eq!(back.name, c.name);
    assert_eq!(back.description, c.description);
    assert_eq!(back.authority_pubkeys, c.authority_pubkeys);
    assert_eq!((back.total_phases, back.admin, back.bump), (2, key(9), 255));
}

#[test]
fn unreadable_oracle_config_is_refused() {
    let c = config(key(9), vec![key(2)], 2);
    let bytes = config_bytes(&c);
    let mut bad_text = bytes.clone();
    bad_text[12] = 0xff;
    assert_eq!(OracleConfig::try_deserialize(&bad_text).unwrap_err(), AccountError::AccountDidNotDeserialize);
    let short = &bytes[..bytes.len() - 1];
    assert_eq!(OracleConfig::try_deserialize(short).unwrap_err(), AccountError::AccountDidNotDeserialize);
    let mut many = bytes.clone();
    let at = 8 + 4 + 3 + 4 + 14 + 1;
    many[at] = 9;
    assert_eq!(OracleConfig::try_deserialize(&many).unwrap_err(), AccountError::AccountDidNotDeserialize);
    assert_eq!(OracleConfig::try_deserialize(&bytes[..5]).unwrap_err(), AccountError::AccountDiscriminatorNotFound);
}

#[test]
fn authorities_change_only_on_the_named_configuration() {
    let at_name = find_oracle_config_address("fng").unwrap();
    let mut add = AddAuthorityToOracleConfig {
        config: Account { key: key(1), data: config(key(9), vec![key(2)], 2) },
        user: key(9),
        authority_pubkey: key(3),
    };
    assert_eq!(add.process(), Err(ErrorCode::UnexpectedAccount));
    add.config.key = at_name;
    assert_eq!(add.process(), Ok(()));
    assert_eq!(add.config.data.authority_pubkeys, vec![key(2), key(3)]);
    let mut remove = RemoveAuthorityFromOracleConfig {
        config: Account { key: key(1), data: add.config.data.clone() },
        user: key(9),
        authority_pubkey: key(2),
    };
    assert_eq!(remove.process(), Err(ErrorCode::UnexpectedAccount));
    remove.config.key = at_name;
    assert_eq!(remove.process(), Ok(()));
    assert_eq!(remove.config.data.authority_pubkeys, vec![key(3)]);
}
