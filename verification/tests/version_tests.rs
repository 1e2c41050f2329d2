use aos_core::aos_querier::AOSQuerier;
use aos_core::error::ContractError;
use aos_core::kernel::KernelState;
use aos_core::version::ADOVersion;

#[test]
fn test_ado_version_from_string() {
    let av = ADOVersion::from_string("splitter@1.2.3");
    assert_eq!(av.get_type(), "splitter".to_string());
    assert_eq!(av.get_version(), "1.2.3".to_string());
    assert!(!av.is_latest());
    assert_eq!(av.into_string(), "splitter@1.2.3".to_string());

    let av = ADOVersion::from_string("splitter");
    assert_eq!(av.get_type(), "splitter".to_string());
    assert_eq!(av.get_version(), "latest".to_string());
    assert!(av.is_latest());
    assert_eq!(av.into_string(), "splitter".to_string());

    let av = ADOVersion::from_string("splitter@latest");
    assert!(av.is_latest());
}

#[test]
fn test_ado_version_validate() {
    assert!(ADOVersion::from_string("splitter@1.2.3").validate());
    assert!(ADOVersion::from_string("splitter@latest").validate());
    assert!(ADOVersion::from_string("splitter").validate());

    // An empty type, a delimiter inside the version, or a version that is not
    // a three-part semantic version are all malformed.
    assert!(!ADOVersion::from_string("").validate());
    assert!(!ADOVersion::from_string("@1.2.3").validate());
    assert!(!ADOVersion::from_string("splitter@1.2.3@4").validate());
    assert!(!ADOVersion::from_string("splitter@1.2").validate());
    assert!(!ADOVersion::from_string("splitter@newest").validate());
    assert!(!ADOVersion::from_string("splitter@").validate());
}

#[test]
fn test_ado_version_builders() {
    let av = ADOVersion::from_type("splitter").with_version("2.0.0".to_string());
    assert_eq!(av.get_type(), "splitter".to_string());
    assert_eq!(av.get_version(), "2.0.0".to_string());
}

#[test]
fn test_kernel_address_getters() {
    let mut kernel = KernelState::new("owner".to_string(), "kernel".to_string());
    kernel
        .upsert_key_address("owner", "vfs".to_string(), "vfs_addr".to_string())
        .unwrap();
    kernel
        .upsert_key_address("owner", "adodb".to_string(), "adodb_addr".to_string())
        .unwrap();

    assert_eq!(
        AOSQuerier::vfs_address_getter(&kernel).unwrap(),
        "vfs_addr".to_string()
    );
    assert_eq!(
        AOSQuerier::adodb_address_getter(&kernel).unwrap(),
        "adodb_addr".to_string()
    );
    assert_eq!(
        AOSQuerier::kernel_address_getter(&kernel, &"economics".to_string()).unwrap_err(),
        ContractError::InvalidAddress
    );
}

#[test]
fn test_code_id_checks() {
    let mut registry = aos_core::adodb::AdodbState::new("owner".to_string());
    registry
        .publish("owner", 4, "vault".to_string(), "1.0.0".to_string(), None, None)
        .unwrap();

    assert_eq!(
        AOSQuerier::ado_type_getter(&registry, 4).unwrap(),
        "vault".to_string()
    );
    assert_eq!(
        AOSQuerier::ado_type_getter(&registry, 5).unwrap_err(),
        ContractError::InvalidAddress
    );
    assert!(AOSQuerier::verify_code_id(&registry, 4).is_ok());
    assert_eq!(
        AOSQuerier::verify_code_id(&registry, 5).unwrap_err(),
        ContractError::Unauthorized
    );
    assert_eq!(AOSQuerier::code_id_getter(&registry, &"vault".to_string()).unwrap(), 4);
}
