use jackpot_core::config::configure;
use jackpot_core::config::AmountConfig;
use jackpot_core::config::Config;
use jackpot_core::errors::ContractError;
use jackpot_core::randomness::current_state;
use jackpot_core::randomness::RandomnessState;
use jackpot_core::round::create_game;
use jackpot_core::round::GameGround;
use jackpot_core::utils::bps_mul;
use jackpot_core::utils::bps_mul_raw;

fn base_config() -> Config {
    Config {
        authority: 1,
        payer_wallet: 2,
        team_wallet: 3,
        game_round: 5,
        platform_fee: 100,
        min_deposit_amount: 1,
        max_joiner_count: 100,
        initialized: true,
    }
}

#[test]
fn create_game_validates_duration() {
    let mut cfg = base_config();
    let r = create_game(&mut cfg, 9, [0u8; 32], 0, 10, 3, 1000);
    assert_eq!(r.unwrap_err(), ContractError::RoundTimeError);
    let r = create_game(&mut cfg, 9, [0u8; 32], -5, 10, 3, 1000);
    assert_eq!(r.unwrap_err(), ContractError::RoundTimeError);
    assert_eq!(cfg.game_round, 5);
}

#[test]
fn create_game_validates_min_deposit() {
    let mut cfg = base_config();
    let r = create_game(&mut cfg, 9, [0u8; 32], 60, 0, 3, 1000);
    assert_eq!(r.unwrap_err(), ContractError::MinDepositAmountError);
    assert_eq!(cfg.game_round, 5);
}

#[test]
fn create_game_validates_capacity() {
    let mut cfg = base_config();
    let r = create_game(&mut cfg, 9, [0u8; 32], 60, 10, 0, 1000);
    assert_eq!(r.unwrap_err(), ContractError::MaxJoinerCountError);
    let r = create_game(&mut cfg, 9, [0u8; 32], 60, 10, 101, 1000);
    assert_eq!(r.unwrap_err(), ContractError::MaxJoinerCountError);
    assert_eq!(cfg.game_round, 5);
}

#[test]
fn create_game_assigns_and_advances_round_number() {
    let mut cfg = base_config();
    let g1 = create_game(&mut cfg, 9, [0u8; 32], 60, 10, 3, 1000).unwrap();
    let g2 = create_game(&mut cfg, 9, [0u8; 32], 60, 10, 3, 2000).unwrap();
    assert_eq!(g1.game_round, 5);
    assert_eq!(g2.game_round, 6);
    assert_eq!(cfg.game_round, 7);
    assert_eq!(g1.create_date, 1000);
    assert_eq!(g1.round_time, 60);
    assert_eq!(g1.min_deposit_amount, 10);
    assert_eq!(g1.max_joiner_count, 3);
    assert!(!g1.is_completed);
    assert!(!g1.is_claimed);
    assert!(g1.deposit_list.is_empty());
}

#[test]
fn validate_range_bounds() {
    let rule = AmountConfig::Range { min: Some(10), max: Some(20) };
    assert_eq!(rule.validate(&9), Err(ContractError::ValueTooSmall));
    assert_eq!(rule.validate(&10), Ok(()));
    assert_eq!(rule.validate(&20), Ok(()));
    assert_eq!(rule.validate(&21), Err(ContractError::ValueTooLarge));
    let open_low = AmountConfig::Range { min: None, max: Some(20) };
    assert_eq!(open_low.validate(&0), Ok(()));
    assert_eq!(open_low.validate(&21), Err(ContractError::ValueTooLarge));
    let open_high = AmountConfig::Range { min: Some(10), max: None };
    assert_eq!(open_high.validate(&u64::MAX), Ok(()));
    assert_eq!(open_high.validate(&9), Err(ContractError::ValueTooSmall));
    // the validator is generic over any ordered type
    let signed = AmountConfig::Range { min: Some(-5i64), max: Some(5) };
    assert_eq!(signed.validate(&-6), Err(ContractError::ValueTooSmall));
    assert_eq!(signed.validate(&0), Ok(()));
    assert_eq!(signed.validate(&6), Err(ContractError::ValueTooLarge));
}

#[test]
fn validate_enum_membership() {
    let rule = AmountConfig::Enum(vec![1, 5, 9]);
    assert_eq!(rule.validate(&5), Ok(()));
    assert_eq!(rule.validate(&9), Ok(()));
    assert_eq!(rule.validate(&2), Err(ContractError::ValueInvalid));
    let empty: AmountConfig<u64> = AmountConfig::Enum(vec![]);
    assert_eq!(empty.validate(&1), Err(ContractError::ValueInvalid));
}

#[test]
fn configure_requires_authority() {
    let mut cfg = base_config();
    let replacement = Config { authority: 42, ..base_config() };
    assert_eq!(configure(&mut cfg, 99, replacement), Err(ContractError::IncorrectAuthority));
    assert_eq!(cfg.authority, 1);
    assert_eq!(configure(&mut cfg, 1, replacement), Ok(()));
    assert_eq!(cfg.authority, 42);
    // the round counter survives reconfiguration
    assert_eq!(cfg.game_round, 5);
    assert!(cfg.initialized);
}

#[test]
fn configure_initializes_fresh_state() {
    let mut cfg = Config {
        authority: 0,
        payer_wallet: 0,
        team_wallet: 0,
        game_round: 0,
        platform_fee: 0,
        min_deposit_amount: 0,
        max_joiner_count: 0,
        initialized: false,
    };
    let wanted = base_config();
    assert_eq!(configure(&mut cfg, 77, wanted), Ok(()));
    assert_eq!(cfg, Config { initialized: true, ..wanted });
}

#[test]
fn bps_mul_exact_values() {
    assert_eq!(bps_mul(100, 5000, 10_000), Some(50));
    assert_eq!(bps_mul(250, 1000, 10_000), Some(25));
    assert_eq!(bps_mul(1, 1, 10_000), Some(0));
    assert_eq!(bps_mul(100, 5000, 0), None);
    assert_eq!(bps_mul(u64::MAX, u64::MAX, 1), None);
}

#[test]
fn bps_mul_raw_wide_arithmetic() {
    assert_eq!(bps_mul_raw(100, 5000, 10_000), Some(50));
    assert_eq!(bps_mul_raw(100, 5000, 0), None);
    let huge = (u64::MAX as u128) * (u64::MAX as u128);
    assert_eq!(bps_mul_raw(u64::MAX, u64::MAX, 1), Some(huge));
}

#[test]
fn current_state_reads_little_endian() {
    let mut bytes = vec![0u8; 64];
    bytes[0] = 0x2D;
    let r = RandomnessState { fulfilled_randomness: Some(bytes) };
    assert_eq!(current_state(&r), 45);

    let mut bytes = 0xDEAD_BEEF_0123_4567u64.to_le_bytes().to_vec();
    bytes.resize(64, 0xFF);
    let r = RandomnessState { fulfilled_randomness: Some(bytes) };
    assert_eq!(current_state(&r), 0xDEAD_BEEF_0123_4567);

    let pending = RandomnessState { fulfilled_randomness: None };
    assert_eq!(current_state(&pending), 0);
}

#[test]
fn space_grows_per_entry() {
    assert_eq!(GameGround::space(0), 250);
    assert_eq!(GameGround::space(1), 290);
    assert_eq!(GameGround::space(3), 370);
}
