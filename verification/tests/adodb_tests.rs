use aos_core::adodb::{ActionFee, AdodbState};
use aos_core::aos_querier::AOSQuerier;
use aos_core::error::ContractError;
use aos_core::types::{Attribute, Response};
use aos_core::version::ADOVersion;

fn fresh(owner: &str) -> AdodbState {
    AdodbState::new(owner.to_string())
}

#[test]
fn test_update_code_id() {
    let owner = String::from("owner");
    let mut deps = fresh(&owner);

    let resp = deps
        .add_update_code_id(&owner, &"address_list".to_string(), 1u64)
        .unwrap();

    let expected = Response {
        messages: vec![],
        attributes: vec![
            Attribute {
                key: "action".to_string(),
                value: "add_update_code_id".to_string(),
            },
            Attribute {
                key: "code_id_key".to_string(),
                value: "address_list".to_string(),
            },
            Attribute {
                key: "code_id".to_string(),
                value: "1".to_string(),
            },
        ],
    };

    assert_eq!(resp, expected);
}

#[test]
fn test_update_code_id_operator() {
    let owner = String::from("owner");
    let mut deps = fresh(&owner);

    let operator = String::from("operator");
    deps.update_operators(&owner, vec![operator.clone()]).unwrap();

    let resp = deps
        .add_update_code_id(&operator, &"address_list".to_string(), 1u64)
        .unwrap();

    let expected = Response {
        messages: vec![],
        attributes: vec![
            Attribute {
                key: "action".to_string(),
                value: "add_update_code_id".to_string(),
            },
            Attribute {
                key: "code_id_key".to_string(),
                value: "address_list".to_string(),
            },
            Attribute {
                key: "code_id".to_string(),
                value: "1".to_string(),
            },
        ],
    };

    assert_eq!(resp, expected);
}

#[test]
fn test_update_code_id_unauthorized() {
    let owner = String::from("owner");
    let mut deps = fresh(&owner);

    let resp = deps.add_update_code_id("not_owner", &"address_list".to_string(), 1u64);

    assert_eq!(ContractError::Unauthorized, resp.unwrap_err());
}

#[test]
fn test_publish() {
    let owner = String::from("owner");
    let mut deps = fresh(&owner);

    let action_fees = vec![
        ActionFee {
            action: "action".to_string(),
            amount: 1u128,
            asset: "somecw20token".to_string(),
            receiver: None,
        },
        ActionFee {
            action: "action2".to_string(),
            amount: 2u128,
            asset: "uusd".to_string(),
            receiver: None,
        },
    ];

    let resp = deps.publish(
        &owner,
        1,
        "ado_type".to_string(),
        "0.1.0".to_string(),
        Some(action_fees.clone()),
        Some(owner.clone()),
    );

    assert!(resp.is_ok());

    let publisher = deps.query_ado_metadata(&"ado_type".to_string()).unwrap().publisher;
    assert_eq!(publisher, owner);

    let code_id = AOSQuerier::code_id_getter(&deps, &"ado_type".to_string()).unwrap();
    assert_eq!(code_id, 1u64);

    let vers_code_id = deps.query_code_id("ado_type@0.1.0").unwrap();
    assert_eq!(vers_code_id, 1u64);

    let one = deps
        .query_action_fee(&"ado_type".to_string(), &"action".to_string())
        .unwrap();
    assert_eq!(one, action_fees[0]);

    let two = deps
        .query_action_fee(&"ado_type".to_string(), &"action2".to_string())
        .unwrap();
    assert_eq!(two, action_fees[1]);

    // Test unauthorised
    let resp = deps.publish(
        "not_owner",
        1,
        "ado_type".to_string(),
        "0.1.0".to_string(),
        Some(action_fees),
        Some(owner),
    );
    assert!(resp.is_err());
}

#[test]
fn test_update_action_fees() {
    let owner = String::from("owner");
    let mut deps = fresh(&owner);
    let ado_type = "ado_type";

    let action_fees = vec![
        ActionFee {
            action: "action".to_string(),
            amount: 1u128,
            asset: "somecw20token".to_string(),
            receiver: None,
        },
        ActionFee {
            action: "action2".to_string(),
            amount: 2u128,
            asset: "uusd".to_string(),
            receiver: None,
        },
    ];

    let res = deps
        .execute_update_action_fees(&owner, ado_type.to_string(), &action_fees)
        .unwrap_err();
    assert_eq!(
        res,
        ContractError::InvalidADOVersion {
            msg: Some("ADO type does not exist".to_string())
        }
    );

    deps.code_id.insert(ado_type.to_string(), 1u64);

    let res = deps.execute_update_action_fees(&owner, ado_type.to_string(), &action_fees);
    assert!(res.is_ok());

    let one = deps
        .query_action_fee(&ado_type.to_string(), &"action".to_string())
        .unwrap();
    assert_eq!(one, action_fees[0]);

    let two = deps
        .query_action_fee(&ado_type.to_string(), &"action2".to_string())
        .unwrap();
    assert_eq!(two, action_fees[1]);

    // Test unauthorised
    let resp = deps.execute_update_action_fees("not_owner", ado_type.to_string(), &action_fees);
    assert!(resp.is_err());
}

#[test]
fn test_remove_action_fees() {
    let owner = String::from("owner");
    let mut deps = fresh(&owner);
    let ado_type = "ado_type";
    let action = "action";

    // Add extra action to ensure no error when a false action is provided
    let actions = vec![action.to_string(), "not_an_action".to_string()];

    let res = deps
        .execute_remove_actions(&owner, ado_type.to_string(), &actions)
        .unwrap_err();
    assert_eq!(
        res,
        ContractError::InvalidADOVersion {
            msg: Some("ADO type does not exist".to_string())
        }
    );

    deps.code_id.insert(ado_type.to_string(), 1u64);

    deps.action_fees.insert(
        (ado_type.to_string(), action.to_string()),
        ActionFee::new(action.to_string(), "uusd".to_string(), 1u128),
    );

    let res = deps
        .execute_remove_actions("not_owner", ado_type.to_string(), &actions)
        .unwrap_err();
    assert_eq!(res, ContractError::Unauthorized);

    deps.execute_remove_actions(&owner, ado_type.to_string(), &actions).unwrap();

    let fee = deps.query_action_fee(&ado_type.to_string(), &action.to_string());
    assert!(fee.is_none());
}

#[test]
fn test_update_publisher() {
    let owner = String::from("owner");
    let mut deps = fresh(&owner);
    let ado_type = "ado_type";

    let res = deps
        .execute_update_publisher(&owner, ado_type.to_string(), "new_publisher".to_string())
        .unwrap_err();
    assert_eq!(
        res,
        ContractError::InvalidADOVersion {
            msg: Some("ADO type does not exist".to_string())
        }
    );

    deps.code_id.insert(ado_type.to_string(), 1u64);

    let res = deps.execute_update_publisher(&owner, ado_type.to_string(), "new_publisher".to_string());
    assert!(res.is_ok());

    let publisher = deps.publisher.get(&ado_type.to_string()).unwrap();
    assert_eq!(*publisher, "new_publisher".to_string());

    // Test unauthorised
    let resp = deps
        .execute_update_publisher("not_owner", ado_type.to_string(), "new_publisher".to_string())
        .unwrap_err();
    assert_eq!(resp, ContractError::Unauthorized);
}

#[test]
fn test_publish_then_resolve() {
    let owner = String::from("owner");
    let mut deps = fresh(&owner);

    deps.publish(&owner, 7, "exchange".to_string(), "1.2.3".to_string(), None, None)
        .unwrap();

    // The versioned entry resolves to the code id supplied at publish time.
    assert_eq!(deps.query_code_id("exchange@1.2.3").unwrap(), 7);
    // The latest pointer resolves there too.
    assert_eq!(deps.query_code_id("exchange").unwrap(), 7);
    assert_eq!(deps.query_code_id("exchange@latest").unwrap(), 7);
    // The code id maps back to the type.
    assert_eq!(deps.query_ado_type(7), Some("exchange".to_string()));
    // The publisher defaults to the caller.
    assert_eq!(
        deps.query_ado_metadata(&"exchange".to_string()).unwrap().publisher,
        owner
    );
}

#[test]
fn test_publish_version_ordering() {
    let owner = String::from("owner");
    let mut deps = fresh(&owner);

    deps.publish(&owner, 1, "splitter".to_string(), "1.0.0".to_string(), None, None)
        .unwrap();

    // Publishing the same version again is rejected.
    let res = deps
        .publish(&owner, 2, "splitter".to_string(), "1.0.0".to_string(), None, None)
        .unwrap_err();
    assert_eq!(
        res,
        ContractError::InvalidADOVersion {
            msg: Some("Version already published".to_string())
        }
    );

    // Publishing an older version is rejected.
    let res = deps
        .publish(&owner, 2, "splitter".to_string(), "0.9.0".to_string(), None, None)
        .unwrap_err();
    assert_eq!(
        res,
        ContractError::InvalidADOVersion {
            msg: Some("Version must be newer than the current version".to_string())
        }
    );

    // Publishing a newer version succeeds and moves the latest pointer.
    deps.publish(&owner, 2, "splitter".to_string(), "1.1.0".to_string(), None, None)
        .unwrap();
    let latest = deps.read_latest_code_id(&"splitter".to_string()).unwrap();
    assert_eq!(latest.version, "1.1.0".to_string());
    assert_eq!(latest.code_id, 2);
    assert_eq!(deps.query_code_id("splitter").unwrap(), 2);
    // The older versioned entry is still there.
    assert_eq!(deps.query_code_id("splitter@1.0.0").unwrap(), 1);
}

#[test]
fn test_publish_invalid_version() {
    let owner = String::from("owner");
    let mut deps = fresh(&owner);

    for bad in ["", "1.0", "latest", "not-a-version", "1.0.0.0"] {
        let res = deps
            .publish(&owner, 1, "splitter".to_string(), bad.to_string(), None, None)
            .unwrap_err();
        assert_eq!(res, ContractError::InvalidADOVersion { msg: None });
    }

    // A type holding the delimiter is malformed too.
    let res = deps
        .publish(&owner, 1, "spli@tter".to_string(), "1.0.0".to_string(), None, None)
        .unwrap_err();
    assert_eq!(res, ContractError::InvalidADOVersion { msg: None });
}

#[test]
fn test_code_id_type_binding_immutable() {
    let owner = String::from("owner");
    let mut deps = fresh(&owner);

    deps.publish(&owner, 5, "splitter".to_string(), "1.0.0".to_string(), None, None)
        .unwrap();

    // The same code id cannot be republished under a different type.
    let res = deps
        .publish(&owner, 5, "exchange".to_string(), "1.0.0".to_string(), None, None)
        .unwrap_err();
    assert_eq!(res, ContractError::Unauthorized);

    // Under its own type a newer version may reuse it.
    deps.publish(&owner, 5, "splitter".to_string(), "1.0.1".to_string(), None, None)
        .unwrap();
}

#[test]
fn test_remove_code_id() {
    let owner = String::from("owner");
    let mut deps = fresh(&owner);

    deps.publish(&owner, 3, "vault".to_string(), "1.0.0".to_string(), None, None)
        .unwrap();
    let av = ADOVersion::from_string("vault@1.0.0");
    deps.remove_code_id(&av, 3).unwrap();

    assert_eq!(deps.query_code_id("vault@1.0.0").unwrap_err(), ContractError::NotFound);
    assert_eq!(deps.query_ado_type(3), None);
    assert!(deps.read_latest_code_id(&"vault".to_string()).is_err());
}

#[test]
fn test_query_action_fee_by_code_id() {
    let owner = String::from("owner");
    let mut deps = fresh(&owner);

    let fee = ActionFee::new("mint".to_string(), "uusd".to_string(), 4u128);
    deps.publish(
        &owner,
        9,
        "receipt".to_string(),
        "1.0.0".to_string(),
        Some(vec![fee.clone()]),
        None,
    )
    .unwrap();

    let found = deps
        .query_action_fee_by_code_id(9, &"mint".to_string())
        .unwrap()
        .unwrap();
    assert_eq!(found, fee);

    let absent = deps.query_action_fee_by_code_id(9, &"burn".to_string()).unwrap();
    assert!(absent.is_none());

    let unknown = deps.query_action_fee_by_code_id(10, &"mint".to_string());
    assert_eq!(unknown.unwrap_err(), ContractError::NotFound);
}
