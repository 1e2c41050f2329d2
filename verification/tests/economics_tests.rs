use aos_core::adodb::{ActionFee, AdodbState};
use aos_core::economics::EconomicsState;
use aos_core::error::ContractError;
use aos_core::kv::KvStore;
use aos_core::types::{Coin, CosmosMsg};

const MOCK_ACTION: &str = "action";
const MOCK_ADO_PUBLISHER: &str = "ado_publisher";
const MOCK_APP_CONTRACT: &str = "app_contract";

fn coin(amount: u128, denom: &str) -> Coin {
    Coin {
        denom: denom.to_string(),
        amount,
    }
}

/// A registry in which the caller `creator` is a contract of a type whose
/// `action` costs 10 `uusd`, published by the mock publisher.
fn mock_registry() -> (AdodbState, KvStore<String, u64>) {
    let mut registry = AdodbState::new("owner".to_string());
    registry
        .publish(
            "owner",
            1,
            "counter".to_string(),
            "0.1.0".to_string(),
            Some(vec![ActionFee::new(
                MOCK_ACTION.to_string(),
                "uusd".to_string(),
                10u128,
            )]),
            Some(MOCK_ADO_PUBLISHER.to_string()),
        )
        .unwrap();
    let mut contract_infos: KvStore<String, u64> = KvStore::new();
    contract_infos.insert("creator".to_string(), 1u64);
    (registry, contract_infos)
}

#[test]
fn test_deposit() {
    let mut deps = EconomicsState::new();

    // Test No Coin Deposit
    let res = deps.execute_deposit("creator", None, &vec![]);
    assert!(res.is_err());

    // Test Single Coin Deposit
    deps.execute_deposit("creator", None, &vec![coin(100, "uandr")]).unwrap();

    let balance = deps.balance(&"creator".to_string(), &"uandr".to_string());
    assert_eq!(balance, 100u128);

    // Test Multiple Coin Deposit
    deps.execute_deposit("creator", None, &vec![coin(100, "uandr"), coin(100, "uusd")])
        .unwrap();

    let balance = deps.balance(&"creator".to_string(), &"uandr".to_string());
    assert_eq!(balance, 200u128);

    let balance = deps.balance(&"creator".to_string(), &"uusd".to_string());
    assert_eq!(balance, 100u128);
}

#[test]
fn test_spend_balance() {
    let mut deps = EconomicsState::new();
    let amount = 100u128;
    let payee = "payee".to_string();
    let asset = "uusd";

    let res = deps.spend_balance(&payee, asset.to_string(), amount).unwrap();
    assert_eq!(res, amount);

    deps.set_balance(&payee, &asset.to_string(), 50u128);

    let res = deps.spend_balance(&payee, asset.to_string(), amount).unwrap();
    let post_balance = deps.balance(&payee, &asset.to_string());
    assert_eq!(res, 50u128);
    assert_eq!(post_balance, 0u128);

    deps.set_balance(&payee, &asset.to_string(), 150u128);

    let res = deps.spend_balance(&payee, asset.to_string(), amount).unwrap();
    let post_balance = deps.balance(&payee, &asset.to_string());
    assert_eq!(res, 0u128);
    assert_eq!(post_balance, 50u128);
}

#[test]
fn test_pay_fee() {
    let mut deps = EconomicsState::new();
    let (registry, infos) = mock_registry();
    let payee = "payee".to_string();

    // Paying fee without funds
    let res = deps
        .execute_pay_fee(
            "creator",
            &registry,
            &infos,
            Some(MOCK_APP_CONTRACT.to_string()),
            &payee,
            &MOCK_ACTION.to_string(),
        )
        .unwrap_err();
    assert_eq!(res, ContractError::InsufficientFunds);

    deps.set_balance(&payee, &"uusd".to_string(), 10u128);

    // Paying fee with funds
    let res = deps.execute_pay_fee(
        "creator",
        &registry,
        &infos,
        Some(MOCK_APP_CONTRACT.to_string()),
        &payee,
        &MOCK_ACTION.to_string(),
    );
    assert!(res.is_ok());

    let balance = deps.balance(&payee, &"uusd".to_string());
    assert_eq!(balance, 0u128);

    // Check publisher balance
    let balance = deps.balance(&MOCK_ADO_PUBLISHER.to_string(), &"uusd".to_string());
    assert_eq!(balance, 10u128);
}

// Tests payment for fees via the contract balance
#[test]
fn test_pay_fee_contract() {
    let mut deps = EconomicsState::new();
    let (registry, infos) = mock_registry();
    let payee = "payee".to_string();

    deps.set_balance(&"creator".to_string(), &"uusd".to_string(), 10u128);

    let res = deps.execute_pay_fee(
        "creator",
        &registry,
        &infos,
        Some(MOCK_APP_CONTRACT.to_string()),
        &payee,
        &MOCK_ACTION.to_string(),
    );
    assert!(res.is_ok());

    let balance = deps.balance(&"creator".to_string(), &"uusd".to_string());
    assert_eq!(balance, 0u128);

    // Check publisher balance
    let balance = deps.balance(&MOCK_ADO_PUBLISHER.to_string(), &"uusd".to_string());
    assert_eq!(balance, 10u128);
}

#[test]
fn test_pay_fee_app() {
    let mut deps = EconomicsState::new();
    let (registry, infos) = mock_registry();
    let payee = "payee".to_string();

    deps.set_balance(&MOCK_APP_CONTRACT.to_string(), &"uusd".to_string(), 10u128);

    let res = deps.execute_pay_fee(
        "creator",
        &registry,
        &infos,
        Some(MOCK_APP_CONTRACT.to_string()),
        &payee,
        &MOCK_ACTION.to_string(),
    );
    assert!(res.is_ok());

    let balance = deps.balance(&"creator".to_string(), &"uusd".to_string());
    assert_eq!(balance, 0u128);

    // Check publisher balance
    let balance = deps.balance(&MOCK_ADO_PUBLISHER.to_string(), &"uusd".to_string());
    assert_eq!(balance, 10u128);
}

// Tests payment of fees via fallthrough
#[test]
fn test_pay_fee_joint() {
    let mut deps = EconomicsState::new();
    let (registry, infos) = mock_registry();
    let payee = "payee".to_string();

    // Contract balance
    deps.set_balance(&"creator".to_string(), &"uusd".to_string(), 4u128);
    // Payee balance
    deps.set_balance(&payee, &"uusd".to_string(), 3u128);
    // App balance
    deps.set_balance(&MOCK_APP_CONTRACT.to_string(), &"uusd".to_string(), 3u128);

    let res = deps.execute_pay_fee(
        "creator",
        &registry,
        &infos,
        Some(MOCK_APP_CONTRACT.to_string()),
        &payee,
        &MOCK_ACTION.to_string(),
    );
    assert!(res.is_ok());

    // Check contract balance
    let balance = deps.balance(&"creator".to_string(), &"uusd".to_string());
    assert_eq!(balance, 0u128);

    // Check payee balance
    let balance = deps.balance(&payee, &"uusd".to_string());
    assert_eq!(balance, 0u128);

    // Check app balance
    let balance = deps.balance(&MOCK_APP_CONTRACT.to_string(), &"uusd".to_string());
    assert_eq!(balance, 0u128);

    // Check publisher balance
    let balance = deps.balance(&MOCK_ADO_PUBLISHER.to_string(), &"uusd".to_string());
    assert_eq!(balance, 10u128);

    // Check insufficient funds
    // Contract balance
    deps.set_balance(&"creator".to_string(), &"uusd".to_string(), 4u128);
    // App balance
    deps.set_balance(&MOCK_APP_CONTRACT.to_string(), &"uusd".to_string(), 3u128);

    let res = deps
        .execute_pay_fee(
            "creator",
            &registry,
            &infos,
            Some(MOCK_APP_CONTRACT.to_string()),
            &payee,
            &MOCK_ACTION.to_string(),
        )
        .unwrap_err();
    assert_eq!(res, ContractError::InsufficientFunds);

    // All-or-nothing: the failed payment left every balance unchanged.
    assert_eq!(deps.balance(&"creator".to_string(), &"uusd".to_string()), 4u128);
    assert_eq!(deps.balance(&payee, &"uusd".to_string()), 0u128);
    assert_eq!(
        deps.balance(&MOCK_APP_CONTRACT.to_string(), &"uusd".to_string()),
        3u128
    );
    assert_eq!(
        deps.balance(&MOCK_ADO_PUBLISHER.to_string(), &"uusd".to_string()),
        10u128
    );
}

#[test]
fn test_withdraw() {
    let mut deps = EconomicsState::new();
    let asset = "uusd";

    // Withdraw all funds
    deps.set_balance(&"creator".to_string(), &asset.to_string(), 10u128);

    let res = deps.execute_withdraw("creator", None, asset.to_string()).unwrap();
    assert_eq!(res.messages.len(), 1);
    assert_eq!(
        res.messages.first().unwrap().msg,
        CosmosMsg::BankSend {
            to_address: "creator".to_string(),
            amount: vec![coin(10, asset)],
        }
    );

    let balance = deps.balance(&"creator".to_string(), &"uusd".to_string());
    assert_eq!(balance, 0u128);

    // Insufficient balance
    let res = deps
        .execute_withdraw("creator", None, asset.to_string())
        .unwrap_err();
    assert_eq!(res, ContractError::InsufficientFunds);

    deps.set_balance(&"creator".to_string(), &asset.to_string(), 1u128);

    let res = deps
        .execute_withdraw("creator", Some(10u128), asset.to_string())
        .unwrap_err();
    assert_eq!(res, ContractError::InsufficientFunds);

    // Partial withdraw
    deps.set_balance(&"creator".to_string(), &asset.to_string(), 10u128);

    let res = deps
        .execute_withdraw("creator", Some(5u128), asset.to_string())
        .unwrap();
    assert_eq!(res.messages.len(), 1);
    assert_eq!(
        res.messages.first().unwrap().msg,
        CosmosMsg::BankSend {
            to_address: "creator".to_string(),
            amount: vec![coin(5, asset)],
        }
    );

    let balance = deps.balance(&"creator".to_string(), &"uusd".to_string());
    assert_eq!(balance, 5u128);
}

#[test]
fn test_withdraw_attributes() {
    let mut deps = EconomicsState::new();
    deps.set_balance(&"creator".to_string(), &"uusd".to_string(), 10u128);

    let res = deps.execute_withdraw("creator", None, "uusd".to_string()).unwrap();
    assert_eq!(res.attributes.len(), 2);
    assert_eq!(res.attributes[0].key, "action".to_string());
    assert_eq!(res.attributes[0].value, "withdraw".to_string());
    assert_eq!(res.attributes[1].key, "amount".to_string());
    assert_eq!(res.attributes[1].value, "10".to_string());
}

#[test]
fn test_pay_fee_named_receiver() {
    let mut deps = EconomicsState::new();
    let mut registry = AdodbState::new("owner".to_string());
    registry
        .publish(
            "owner",
            1,
            "counter".to_string(),
            "0.1.0".to_string(),
            Some(vec![ActionFee {
                action: MOCK_ACTION.to_string(),
                asset: "uusd".to_string(),
                amount: 7u128,
                receiver: Some("treasury".to_string()),
            }]),
            Some(MOCK_ADO_PUBLISHER.to_string()),
        )
        .unwrap();
    let mut infos: KvStore<String, u64> = KvStore::new();
    infos.insert("creator".to_string(), 1u64);

    deps.set_balance(&"payee".to_string(), &"uusd".to_string(), 7u128);
    deps.execute_pay_fee(
        "creator",
        &registry,
        &infos,
        None,
        &"payee".to_string(),
        &MOCK_ACTION.to_string(),
    )
    .unwrap();

    // The named receiver, not the publisher, is credited.
    assert_eq!(deps.balance(&"treasury".to_string(), &"uusd".to_string()), 7u128);
    assert_eq!(
        deps.balance(&MOCK_ADO_PUBLISHER.to_string(), &"uusd".to_string()),
        0u128
    );
}

#[test]
fn test_pay_fee_unknown_caller() {
    let mut deps = EconomicsState::new();
    let (registry, infos) = mock_registry();

    let res = deps
        .execute_pay_fee(
            "stranger",
            &registry,
            &infos,
            None,
            &"payee".to_string(),
            &MOCK_ACTION.to_string(),
        )
        .unwrap_err();
    assert_eq!(res, ContractError::InvalidAddress);
}

#[test]
fn test_pay_fee_unknown_action() {
    let mut deps = EconomicsState::new();
    let (registry, infos) = mock_registry();

    let res = deps
        .execute_pay_fee(
            "creator",
            &registry,
            &infos,
            None,
            &"payee".to_string(),
            &"unpriced_action".to_string(),
        )
        .unwrap_err();
    assert_eq!(res, ContractError::NotFound);
}
