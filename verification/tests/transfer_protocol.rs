//! The two-phase transfer protocol: precheck, oracle decision, fail-closed.

use aml_token::aml::CategoryManagment;
use aml_token::category::Category;
use aml_token::contract::Contract;
use aml_token::error::AmlError;
use aml_token::gate::CONFIRMATION_DEPOSIT;

fn gambling_contract() -> Contract {
    // threshold(Gambling) = 5, no `All` fallback; alice holds the supply.
    let mut contract = Contract::new(
        "alice".to_string(),
        "oracle".to_string(),
        Category::Gambling,
        5,
        1_000,
    );
    assert!(contract.register_account("bob".to_string()));
    contract
}

#[test]
fn precheck_requires_the_confirmation_deposit() {
    let contract = gambling_contract();
    for deposit in [0u128, 2, 5] {
        let r = contract.ft_transfer(
            "alice".to_string(),
            deposit,
            "bob".to_string(),
            10,
            None,
        );
        assert!(matches!(r, Err(AmlError::TransferPrecheckFailure)));
    }
}

#[test]
fn precheck_passes_and_names_the_oracle_query() {
    let contract = gambling_contract();
    let pending = contract
        .ft_transfer(
            "alice".to_string(),
            CONFIRMATION_DEPOSIT,
            "bob".to_string(),
            10,
            Some("rent".to_string()),
        )
        .unwrap();
    assert_eq!(pending.query.oracle_id, "oracle");
    assert_eq!(pending.query.subject, "alice");
    assert_eq!(pending.sender_id, "alice");
    assert_eq!(pending.receiver_id, "bob");
    assert_eq!(pending.amount, 10);
    assert_eq!(pending.memo, Some("rent".to_string()));
}

#[test]
fn transfer_at_the_threshold_succeeds() {
    let mut contract = gambling_contract();
    let alice = "alice".to_string();
    let bob = "bob".to_string();
    let r = contract.cb_ft_transfer(&alice, Some((Category::Gambling, 5)), &bob, 100);
    assert_eq!(r, Ok(()));
    assert_eq!(contract.ft_balance_of(&alice), 900);
    assert_eq!(contract.ft_balance_of(&bob), 100);
    assert_eq!(contract.ft_total_supply(), 1_000);
}

#[test]
fn transfer_above_the_threshold_aborts_unchanged() {
    let mut contract = gambling_contract();
    let alice = "alice".to_string();
    let bob = "bob".to_string();
    let r = contract.cb_ft_transfer(&alice, Some((Category::Gambling, 6)), &bob, 100);
    assert_eq!(r, Err(AmlError::AmlRejected));
    assert_eq!(contract.ft_balance_of(&alice), 1_000);
    assert_eq!(contract.ft_balance_of(&bob), 0);
    assert_eq!(contract.ft_total_supply(), 1_000);
}

#[test]
fn exempt_classification_always_passes() {
    // The registry holds nothing that concerns the sender, yet an exempt
    // classification passes whatever the score says.
    let mut contract = gambling_contract();
    let alice = "alice".to_string();
    let bob = "bob".to_string();
    for score in [0u8, 5, 10, 255] {
        assert_eq!(contract.assert_risk((Category::Exempt, score)), Ok(()));
    }
    let r = contract.cb_ft_transfer(&alice, Some((Category::Exempt, 255)), &bob, 40);
    assert_eq!(r, Ok(()));
    assert_eq!(contract.ft_balance_of(&bob), 40);
}

#[test]
fn unconfigured_category_is_a_configuration_error() {
    // Neither `Mixer` nor `All` carries a threshold: fatal, nothing moves.
    let mut contract = gambling_contract();
    let alice = "alice".to_string();
    let bob = "bob".to_string();
    let r = contract.cb_ft_transfer(&alice, Some((Category::Mixer, 1)), &bob, 100);
    assert_eq!(r, Err(AmlError::ConfigurationError));
    assert_eq!(contract.ft_balance_of(&alice), 1_000);
    assert_eq!(contract.ft_balance_of(&bob), 0);
}

#[test]
fn lookup_falls_back_to_all() {
    let mut contract = gambling_contract();
    let alice = "alice".to_string();
    let bob = "bob".to_string();
    assert_eq!(contract.update_category(&alice, Category::All, 3), Ok(()));
    // `Mixer` has no entry of its own, so `All`'s threshold of 3 governs.
    let r = contract.cb_ft_transfer(&alice, Some((Category::Mixer, 3)), &bob, 10);
    assert_eq!(r, Ok(()));
    let r = contract.cb_ft_transfer(&alice, Some((Category::Mixer, 4)), &bob, 10);
    assert_eq!(r, Err(AmlError::AmlRejected));
    // The category's own entry still wins over `All`.
    let r = contract.cb_ft_transfer(&alice, Some((Category::Gambling, 5)), &bob, 10);
    assert_eq!(r, Ok(()));
}

#[test]
fn oracle_failure_fails_closed() {
    let mut contract = gambling_contract();
    let alice = "alice".to_string();
    let bob = "bob".to_string();
    let r = contract.cb_ft_transfer(&alice, None, &bob, 100);
    assert_eq!(r, Err(AmlError::OracleCallFailure));
    assert_eq!(contract.ft_balance_of(&alice), 1_000);
    assert_eq!(contract.ft_balance_of(&bob), 0);
    assert_eq!(contract.ft_total_supply(), 1_000);
}

#[test]
fn assert_risk_judges_without_mutating() {
    let contract = gambling_contract();
    assert_eq!(contract.assert_risk((Category::Gambling, 5)), Ok(()));
    assert_eq!(
        contract.assert_risk((Category::Gambling, 6)),
        Err(AmlError::AmlRejected)
    );
    assert_eq!(
        contract.assert_risk((Category::Scam, 1)),
        Err(AmlError::ConfigurationError)
    );
}

#[test]
fn transfer_call_precheck_and_pending_fields() {
    let contract = gambling_contract();
    let r = contract.ft_transfer_call(
        "alice".to_string(),
        0,
        "bob".to_string(),
        10,
        None,
        "pay".to_string(),
    );
    assert!(matches!(r, Err(AmlError::TransferPrecheckFailure)));
    let pending = contract
        .ft_transfer_call(
            "alice".to_string(),
            CONFIRMATION_DEPOSIT,
            "bob".to_string(),
            10,
            None,
            "pay".to_string(),
        )
        .unwrap();
    assert_eq!(pending.query.oracle_id, "oracle");
    assert_eq!(pending.query.subject, "alice");
    assert_eq!(pending.msg, "pay");
}

#[test]
fn transfer_call_callback_moves_and_notifies() {
    let mut contract = gambling_contract();
    let alice = "alice".to_string();
    let bob = "bob".to_string();
    let note = contract
        .cb_ft_transfer_call(&alice, Some((Category::Gambling, 2)), &bob, 100, "pay".to_string())
        .unwrap();
    assert_eq!(note.receiver_id, "bob");
    assert_eq!(note.sender_id, "alice");
    assert_eq!(note.amount, 100);
    assert_eq!(note.msg, "pay");
    assert_eq!(contract.ft_balance_of(&bob), 100);
}

#[test]
fn transfer_call_callback_aborts_unchanged() {
    let mut contract = gambling_contract();
    let alice = "alice".to_string();
    let bob = "bob".to_string();
    let r = contract.cb_ft_transfer_call(&alice, None, &bob, 100, "pay".to_string());
    assert!(matches!(r, Err(AmlError::OracleCallFailure)));
    let r = contract.cb_ft_transfer_call(
        &alice,
        Some((Category::Gambling, 9)),
        &bob,
        100,
        "pay".to_string(),
    );
    assert!(matches!(r, Err(AmlError::AmlRejected)));
    assert_eq!(contract.ft_balance_of(&alice), 1_000);
    assert_eq!(contract.ft_balance_of(&bob), 0);
}
