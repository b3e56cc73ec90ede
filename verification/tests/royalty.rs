use cep78_royalty::arithmetic::U256;
use cep78_royalty::error::NFTCoreError;
use cep78_royalty::events::TokenIdentifier;
use cep78_royalty::registry::RoyaltyRecord;
use cep78_royalty::registry::RoyaltyRegistry;

fn installer() -> String {
    String::from("account-hash-installer")
}

fn recipient() -> String {
    String::from("account-hash-recipient")
}

#[test]
fn should_set_token_royalty() {
    let mut registry = RoyaltyRegistry::new(installer());
    let event = registry.set_token_royalty(
        &installer(),
        TokenIdentifier::Index(0),
        500,
        recipient(),
        true,
    );
    assert!(event.is_ok());
    assert_eq!(registry.token_overrides.len(), 1);
    assert_eq!(registry.token_overrides[0].0, TokenIdentifier::Index(0));
    assert_eq!(
        registry.token_overrides[0].1,
        RoyaltyRecord {
            fee_basis_points: 500,
            recipient: recipient(),
        }
    );
}

#[test]
fn should_set_collection_royalty() {
    let mut registry = RoyaltyRegistry::new(installer());
    let event = registry.set_collection_royalty(&installer(), 700, recipient());
    assert!(event.is_ok());
    assert_eq!(
        registry.collection_royalty,
        Some(RoyaltyRecord {
            fee_basis_points: 700,
            recipient: recipient(),
        })
    );
    assert_eq!(registry.token_overrides.len(), 0);
}

#[test]
fn should_get_royalty_info_when_token_royalty_exists() {
    let mut registry = RoyaltyRegistry::new(installer());
    registry
        .set_token_royalty(&installer(), TokenIdentifier::Index(0), 500, recipient(), true)
        .unwrap();
    let sale_price = U256::from_u64(500_000_000_000);
    let (amount, to) = registry
        .royalty_info(&TokenIdentifier::Index(0), sale_price)
        .unwrap();
    assert_eq!(amount, U256::from_u64(25_000_000_000));
    assert_eq!(to, recipient());
}

#[test]
fn should_get_collection_royalty_info_when_token_royalty_does_not_exist() {
    let mut registry = RoyaltyRegistry::new(installer());
    registry
        .set_collection_royalty(&installer(), 700, recipient())
        .unwrap();
    let sale_price = U256::from_u64(500_000_000_000);
    let (amount, to) = registry
        .royalty_info(&TokenIdentifier::Index(0), sale_price)
        .unwrap();
    assert_eq!(amount, U256::from_u64(35_000_000_000));
    assert_eq!(to, recipient());
}

#[test]
fn should_not_allow_not_installer_to_set_collection_royalty() {
    let mut registry = RoyaltyRegistry::new(installer());
    registry
        .set_collection_royalty(&installer(), 700, recipient())
        .unwrap();
    let before_collection = registry.collection_royalty.clone();
    let before_overrides = registry.token_overrides.clone();
    let result = registry.set_collection_royalty(&String::from("account-hash-other"), 100, recipient());
    assert_eq!(result, Err(NFTCoreError::PermissionDenied));
    assert_eq!(registry.collection_royalty, before_collection);
    assert_eq!(registry.token_overrides, before_overrides);
}

#[test]
fn should_not_allow_not_installer_to_set_token_royalty() {
    let mut registry = RoyaltyRegistry::new(installer());
    registry
        .set_token_royalty(&installer(), TokenIdentifier::Index(0), 700, recipient(), true)
        .unwrap();
    let before_collection = registry.collection_royalty.clone();
    let before_overrides = registry.token_overrides.clone();
    let result = registry.set_token_royalty(
        &String::from("account-hash-other"),
        TokenIdentifier::Index(0),
        100,
        recipient(),
        true,
    );
    assert_eq!(result, Err(NFTCoreError::PermissionDenied));
    assert_eq!(registry.collection_royalty, before_collection);
    assert_eq!(registry.token_overrides, before_overrides);
}

#[test]
fn override_wins_over_collection_default() {
    let mut registry = RoyaltyRegistry::new(installer());
    registry
        .set_collection_royalty(&installer(), 700, String::from("account-hash-fallback"))
        .unwrap();
    registry
        .set_token_royalty(&installer(), TokenIdentifier::Index(7), 500, recipient(), true)
        .unwrap();
    let (amount, to) = registry
        .royalty_info(&TokenIdentifier::Index(7), U256::from_u64(10_000))
        .unwrap();
    assert_eq!(amount, U256::from_u64(500));
    assert_eq!(to, recipient());
}

#[test]
fn unconfigured_query_fails() {
    let registry = RoyaltyRegistry::new(installer());
    let result = registry.resolve_royalty(&TokenIdentifier::Index(0), U256::from_u64(10_000));
    assert_eq!(result, Err(NFTCoreError::RoyaltyNotConfigured));
}

#[test]
fn missing_token_fails_with_token_not_found() {
    let mut registry = RoyaltyRegistry::new(installer());
    let result = registry.set_token_royalty(
        &installer(),
        TokenIdentifier::Index(99),
        500,
        recipient(),
        false,
    );
    assert_eq!(result, Err(NFTCoreError::TokenNotFound));
    assert_eq!(registry.token_overrides.len(), 0);
}

#[test]
fn setting_token_royalty_twice_is_idempotent() {
    let mut registry = RoyaltyRegistry::new(installer());
    registry
        .set_token_royalty(&installer(), TokenIdentifier::Index(3), 250, recipient(), true)
        .unwrap();
    let after_once = registry.token_overrides.clone();
    registry
        .set_token_royalty(&installer(), TokenIdentifier::Index(3), 250, recipient(), true)
        .unwrap();
    assert_eq!(registry.token_overrides, after_once);
    assert_eq!(registry.token_overrides.len(), 1);
}

#[test]
fn hash_identified_tokens_resolve_by_value() {
    let mut registry = RoyaltyRegistry::new(installer());
    registry
        .set_token_royalty(
            &installer(),
            TokenIdentifier::Hash(String::from("deadbeef")),
            123,
            recipient(),
            true,
        )
        .unwrap();
    let (amount, to) = registry
        .royalty_info(
            &TokenIdentifier::Hash(String::from("deadbeef")),
            U256::from_u64(20_000),
        )
        .unwrap();
    assert_eq!(amount, U256::from_u64(246));
    assert_eq!(to, recipient());
    let miss = registry.resolve_royalty(
        &TokenIdentifier::Hash(String::from("deadbeee")),
        U256::from_u64(20_000),
    );
    assert_eq!(miss, Err(NFTCoreError::RoyaltyNotConfigured));
}

#[test]
fn overwriting_an_override_uses_the_new_record() {
    let mut registry = RoyaltyRegistry::new(installer());
    registry
        .set_token_royalty(&installer(), TokenIdentifier::Index(0), 500, recipient(), true)
        .unwrap();
    registry
        .set_token_royalty(
            &installer(),
            TokenIdentifier::Index(0),
            300,
            String::from("account-hash-new"),
            true,
        )
        .unwrap();
    assert_eq!(registry.token_overrides.len(), 1);
    let (amount, to) = registry
        .royalty_info(&TokenIdentifier::Index(0), U256::from_u64(10_000))
        .unwrap();
    assert_eq!(amount, U256::from_u64(300));
    assert_eq!(to, String::from("account-hash-new"));
}
