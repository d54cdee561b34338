use clawdvault::{
    buy, create_token, sell, ClawdVaultError, FEE_BPS, GRADUATION_THRESHOLD, INITIAL_VIRTUAL_SOL,
    INITIAL_VIRTUAL_TOKENS,
};

#[test]
fn create_sets_launch_state() {
    let c = create_token(1, 2);
    assert_eq!(c.creator, 1);
    assert_eq!(c.mint, 2);
    assert_eq!(c.virtual_sol_reserves, INITIAL_VIRTUAL_SOL);
    assert_eq!(c.virtual_token_reserves, INITIAL_VIRTUAL_TOKENS);
    assert_eq!(c.real_sol_reserves, 0);
    assert_eq!(c.real_token_reserves, INITIAL_VIRTUAL_TOKENS);
    assert_eq!(c.token_total_supply, INITIAL_VIRTUAL_TOKENS);
    assert!(!c.graduated);
}

#[test]
fn buy_scenario_exact() {
    let mut c = create_token(1, 2);
    let settlement = buy(&mut c, 1_000_000_000, 0).unwrap();
    let expected_kept = ((30_000_000_000u128 * 1_073_000_000_000_000u128)
        / 31_000_000_000u128) as u64;
    assert_eq!(expected_kept, 1_038_387_096_774_193);
    assert_eq!(settlement.sol_in, 1_000_000_000);
    assert_eq!(settlement.tokens_out, 1_073_000_000_000_000 - expected_kept);
    assert_eq!(settlement.tokens_out, 34_612_903_225_807);
    assert_eq!(settlement.fee, 10_000_000);
    assert_eq!(c.virtual_sol_reserves, 31_000_000_000);
    assert_eq!(c.virtual_token_reserves, expected_kept);
    assert_eq!(c.real_sol_reserves, 990_000_000);
    assert_eq!(c.real_token_reserves, 1_073_000_000_000_000 - 34_612_903_225_807);
    assert!(!c.graduated);
}

#[test]
fn buy_fee_exact() {
    assert_eq!(FEE_BPS, 100);
    let mut c = create_token(1, 2);
    let settlement = buy(&mut c, 10_000_000, 0).unwrap();
    assert_eq!(settlement.fee, 100_000);
    assert_eq!(c.real_sol_reserves, 10_000_000 - 100_000);
}

#[test]
fn buy_moves_reserves_monotonically() {
    let mut c = create_token(1, 2);
    let tokens_before = c.real_token_reserves;
    let sol_before = c.real_sol_reserves;
    let settlement = buy(&mut c, 500_000_000, 0).unwrap();
    assert!(c.real_token_reserves < tokens_before);
    assert!(c.real_sol_reserves > sol_before);
    assert!(settlement.tokens_out <= tokens_before);
}

#[test]
fn sell_moves_reserves_monotonically() {
    let mut c = create_token(1, 2);
    buy(&mut c, 500_000_000, 0).unwrap();
    let tokens_before = c.real_token_reserves;
    let sol_before = c.real_sol_reserves;
    let settlement = sell(&mut c, 10_000_000_000, 0).unwrap();
    assert!(c.real_token_reserves > tokens_before);
    assert!(c.real_sol_reserves < sol_before);
    assert_eq!(c.real_sol_reserves, sol_before - settlement.sol_out);
}

#[test]
fn buy_zero_amount_changes_nothing() {
    let mut c = create_token(1, 2);
    let before = c;
    let settlement = buy(&mut c, 0, 0).unwrap();
    assert_eq!(settlement.tokens_out, 0);
    assert_eq!(settlement.fee, 0);
    assert_eq!(c, before);
}

#[test]
fn graduation_trigger() {
    let mut c = create_token(1, 2);
    c.real_sol_reserves = GRADUATION_THRESHOLD - 1;
    let settlement = buy(&mut c, 2, 0).unwrap();
    assert!(c.graduated);
    assert_eq!(c.real_sol_reserves, GRADUATION_THRESHOLD + 1);
    let expected_kept = ((30_000_000_000u128 * 1_073_000_000_000_000u128)
        / 30_000_000_002u128) as u64;
    assert_eq!(settlement.tokens_out, 1_073_000_000_000_000 - expected_kept);
    assert!(settlement.tokens_out > 0);
}

#[test]
fn graduation_by_large_buy() {
    let mut c = create_token(1, 2);
    let settlement = buy(&mut c, 70_000_000_000, 0).unwrap();
    assert_eq!(settlement.fee, 700_000_000);
    assert_eq!(c.real_sol_reserves, 69_300_000_000);
    assert!(c.graduated);
}

#[test]
fn rejects_after_graduation() {
    let mut c = create_token(1, 2);
    c.graduated = true;
    let before = c;
    assert_eq!(buy(&mut c, 1_000_000, 0), Err(ClawdVaultError::AlreadyGraduated));
    assert_eq!(c, before);
    assert_eq!(sell(&mut c, 1_000_000, 0), Err(ClawdVaultError::AlreadyGraduated));
    assert_eq!(c, before);
    assert!(c.graduated);
}

#[test]
fn round_trip_is_lossy() {
    let mut c = create_token(1, 2);
    let bought = buy(&mut c, 1_000_000_000, 0).unwrap();
    // Seed the real base reserve as accumulated fees of other trades would;
    // the curve itself kept only the fee-net amount of this one buy.
    c.real_sol_reserves = 1_000_000_000;
    let back = sell(&mut c, bought.tokens_out, 0).unwrap();
    assert_eq!(back.sol_out, 990_000_001);
    assert!(back.sol_out <= 1_000_000_000);
    assert_eq!(c.virtual_token_reserves, INITIAL_VIRTUAL_TOKENS);
}

#[test]
fn round_trip_rejected_when_curve_cannot_pay() {
    let mut c = create_token(1, 2);
    let bought = buy(&mut c, 1_000_000_000, 0).unwrap();
    // The curve collected 990_000_000 net of fee but would owe 990_000_001.
    assert_eq!(
        sell(&mut c, bought.tokens_out, 0),
        Err(ClawdVaultError::InsufficientFunds)
    );
}

#[test]
fn buy_slippage_rejected() {
    let mut c = create_token(1, 2);
    let before = c;
    assert_eq!(
        buy(&mut c, 1_000_000_000, u64::MAX),
        Err(ClawdVaultError::SlippageExceeded)
    );
    assert_eq!(c, before);
}

#[test]
fn sell_slippage_rejected() {
    let mut c = create_token(1, 2);
    buy(&mut c, 1_000_000_000, 0).unwrap();
    let before = c;
    assert_eq!(
        sell(&mut c, 1_000_000, u64::MAX),
        Err(ClawdVaultError::SlippageExceeded)
    );
    assert_eq!(c, before);
}

#[test]
fn buy_reserve_addition_overflow_rejected() {
    let mut c = create_token(1, 2);
    c.virtual_sol_reserves = u64::MAX;
    assert_eq!(buy(&mut c, 1, 0), Err(ClawdVaultError::MathOverflow));
}

#[test]
fn buy_fee_multiplication_overflow_rejected() {
    let mut c = create_token(1, 2);
    let huge = u64::MAX - INITIAL_VIRTUAL_SOL;
    assert_eq!(buy(&mut c, huge, 0), Err(ClawdVaultError::MathOverflow));
}

#[test]
fn buy_zero_divisor_rejected() {
    let mut c = create_token(1, 2);
    c.virtual_sol_reserves = 0;
    assert_eq!(buy(&mut c, 0, 0), Err(ClawdVaultError::MathOverflow));
}

#[test]
fn buy_insufficient_real_tokens_rejected() {
    let mut c = create_token(1, 2);
    c.virtual_sol_reserves = 1;
    c.virtual_token_reserves = 1000;
    c.real_token_reserves = 0;
    assert_eq!(buy(&mut c, 1, 0), Err(ClawdVaultError::InsufficientFunds));
}

#[test]
fn sell_insufficient_real_sol_rejected() {
    let mut c = create_token(1, 2);
    c.virtual_sol_reserves = 1000;
    c.virtual_token_reserves = 1000;
    c.real_sol_reserves = 0;
    assert_eq!(sell(&mut c, 1000, 0), Err(ClawdVaultError::InsufficientFunds));
}

#[test]
fn sell_real_token_addition_overflow_rejected() {
    let mut c = create_token(1, 2);
    c.virtual_sol_reserves = 1000;
    c.virtual_token_reserves = 1000;
    c.real_sol_reserves = 1_000_000;
    c.real_token_reserves = u64::MAX;
    assert_eq!(sell(&mut c, 1000, 0), Err(ClawdVaultError::MathOverflow));
}
