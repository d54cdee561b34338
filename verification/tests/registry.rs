use clawdvault::{ClawdVaultError, CurveRegistry, INITIAL_VIRTUAL_TOKENS};

#[test]
fn create_then_duplicate() {
    let mut registry = CurveRegistry::new();
    assert_eq!(registry.len(), 0);
    assert!(!registry.contains(5));
    assert_eq!(registry.create(1, 5), Ok(()));
    assert!(registry.contains(5));
    assert_eq!(registry.len(), 1);
    assert_eq!(registry.create(2, 5), Err(ClawdVaultError::DuplicateCurve));
    assert_eq!(registry.len(), 1);
}

#[test]
fn get_returns_the_created_curve() {
    let mut registry = CurveRegistry::new();
    registry.create(1, 5).unwrap();
    registry.create(1, 6).unwrap();
    let curve = registry.get(6).unwrap();
    assert_eq!(curve.mint, 6);
    assert_eq!(curve.creator, 1);
    assert_eq!(curve.virtual_token_reserves, INITIAL_VIRTUAL_TOKENS);
    assert_eq!(curve.real_sol_reserves, 0);
    assert!(!curve.graduated);
    assert!(registry.get(7).is_none());
}
