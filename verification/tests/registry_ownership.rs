//! The registry's owner-gated maintenance, its read path, and ownership.

use aml_token::aml::{AMl, CategoryManagment};
use aml_token::category::Category;
use aml_token::contract::Contract;
use aml_token::error::AmlError;
use aml_token::owner::Ownable;

fn fresh_contract() -> Contract {
    Contract::new(
        "alice".to_string(),
        "oracle".to_string(),
        Category::All,
        3,
        1_000,
    )
}

fn threshold_of(contract: &Contract, category: Category) -> Option<u8> {
    let (_, pairs) = contract.get_aml();
    pairs
        .iter()
        .find(|(c, _)| *c == category)
        .map(|(_, score)| *score)
}

#[test]
fn owner_is_the_deployer() {
    let contract = fresh_contract();
    assert_eq!(contract.owner(), "alice");
}

#[test]
fn assert_owner_accepts_only_the_owner() {
    let contract = fresh_contract();
    assert_eq!(contract.assert_owner(&"alice".to_string()), Ok(()));
    assert_eq!(
        contract.assert_owner(&"bob".to_string()),
        Err(AmlError::Unauthorized)
    );
}

#[test]
fn transfer_ownership_replaces_the_owner_at_once() {
    let mut contract = fresh_contract();
    let alice = "alice".to_string();
    let bob = "bob".to_string();
    assert_eq!(contract.transfer_ownership(&alice, bob.clone()), Ok(()));
    assert_eq!(contract.owner(), "bob");
    // The old owner is refused immediately.
    assert_eq!(
        contract.update_category(&alice, Category::Gambling, 5),
        Err(AmlError::Unauthorized)
    );
    assert_eq!(
        contract.transfer_ownership(&alice, alice.clone()),
        Err(AmlError::Unauthorized)
    );
    // The new owner passes the owner check.
    assert_eq!(contract.update_category(&bob, Category::Gambling, 5), Ok(()));
}

#[test]
fn transfer_ownership_by_non_owner_is_refused() {
    let mut contract = fresh_contract();
    let mallory = "mallory".to_string();
    assert_eq!(
        contract.transfer_ownership(&mallory, mallory.clone()),
        Err(AmlError::Unauthorized)
    );
    assert_eq!(contract.owner(), "alice");
}

#[test]
fn update_category_writes_and_overwrites() {
    let mut contract = fresh_contract();
    let alice = "alice".to_string();
    assert_eq!(contract.update_category(&alice, Category::Gambling, 5), Ok(()));
    assert_eq!(threshold_of(&contract, Category::Gambling), Some(5));
    // Last write wins.
    assert_eq!(contract.update_category(&alice, Category::Gambling, 7), Ok(()));
    assert_eq!(threshold_of(&contract, Category::Gambling), Some(7));
}

#[test]
fn update_category_rejects_invalid_scores() {
    let mut contract = fresh_contract();
    let alice = "alice".to_string();
    assert_eq!(
        contract.update_category(&alice, Category::Gambling, 0),
        Err(AmlError::InvalidRiskScore)
    );
    assert_eq!(
        contract.update_category(&alice, Category::Gambling, 11),
        Err(AmlError::InvalidRiskScore)
    );
    assert_eq!(threshold_of(&contract, Category::Gambling), None);
    // The bounds themselves are accepted.
    assert_eq!(contract.update_category(&alice, Category::Mixer, 1), Ok(()));
    assert_eq!(contract.update_category(&alice, Category::Scam, 10), Ok(()));
}

#[test]
fn update_category_by_non_owner_is_refused() {
    let mut contract = fresh_contract();
    assert_eq!(
        contract.update_category(&"bob".to_string(), Category::Gambling, 5),
        Err(AmlError::Unauthorized)
    );
    assert_eq!(threshold_of(&contract, Category::Gambling), None);
}

#[test]
fn remove_category_deletes_and_is_idempotent() {
    let mut contract = fresh_contract();
    let alice = "alice".to_string();
    assert_eq!(contract.update_category(&alice, Category::Gambling, 5), Ok(()));
    assert_eq!(contract.remove_category(&alice, Category::Gambling), Ok(()));
    assert_eq!(threshold_of(&contract, Category::Gambling), None);
    // Removing an absent key is a no-op.
    let before: Vec<(Category, u8)> = contract.get_aml().1;
    assert_eq!(contract.remove_category(&alice, Category::Gambling), Ok(()));
    let after: Vec<(Category, u8)> = contract.get_aml().1;
    assert_eq!(before, after);
}

#[test]
fn removed_category_falls_back_to_all() {
    let mut contract = fresh_contract();
    let alice = "alice".to_string();
    assert_eq!(contract.update_category(&alice, Category::Gambling, 9), Ok(()));
    // With its own entry, a score of 9 passes.
    assert_eq!(contract.assert_risk((Category::Gambling, 9)), Ok(()));
    assert_eq!(contract.remove_category(&alice, Category::Gambling), Ok(()));
    // After removal the lookup is governed by `All`, whose threshold is 3.
    assert_eq!(
        contract.assert_risk((Category::Gambling, 9)),
        Err(AmlError::AmlRejected)
    );
    assert_eq!(contract.assert_risk((Category::Gambling, 3)), Ok(()));
}

#[test]
fn get_aml_reports_oracle_and_conditions() {
    let mut contract = fresh_contract();
    let alice = "alice".to_string();
    assert_eq!(contract.update_category(&alice, Category::Gambling, 5), Ok(()));
    let (oracle, pairs) = contract.get_aml();
    assert_eq!(oracle, "oracle");
    assert_eq!(pairs.len(), 2);
    assert!(pairs.contains(&(Category::All, 3)));
    assert!(pairs.contains(&(Category::Gambling, 5)));
}

#[test]
fn update_aml_account_id_replaces_the_oracle() {
    let mut contract = fresh_contract();
    let alice = "alice".to_string();
    assert_eq!(
        contract.update_aml_account_id(&"bob".to_string(), "rogue".to_string()),
        Err(AmlError::Unauthorized)
    );
    assert_eq!(contract.get_aml().0, "oracle");
    assert_eq!(
        contract.update_aml_account_id(&alice, "oracle2".to_string()),
        Ok(())
    );
    assert_eq!(contract.get_aml().0, "oracle2");
}

#[test]
fn update_aml_category_validates_and_writes() {
    let mut contract = fresh_contract();
    let alice = "alice".to_string();
    assert_eq!(
        contract.update_aml_category(&alice, Category::DeFi, 0),
        Err(AmlError::InvalidRiskScore)
    );
    assert_eq!(contract.update_aml_category(&alice, Category::DeFi, 4), Ok(()));
    assert_eq!(threshold_of(&contract, Category::DeFi), Some(4));
    assert_eq!(contract.remove_aml_category(&alice, Category::DeFi), Ok(()));
    assert_eq!(threshold_of(&contract, Category::DeFi), None);
}

#[test]
fn error_names_are_stable() {
    assert_eq!(AmlError::Unauthorized.name(), "ERR_MUST_BE_OWNER");
    assert_eq!(AmlError::AmlRejected.name(), "ERR_AML_NOT_ALLOWED");
    assert_eq!(AmlError::ConfigurationError.name(), "ERR_NO_DEFAULT_CATEGORY");
}
