use tokenfactory::{
    action_to_json, apply_resolution, execute, get_denom, instantiate, query, resume_address_check,
    resume_resolution, validate_denom, Action, Attribute, ExecuteMsg, InstantiateMsg, QueryMsg,
    Response, Step, TokenFactoryError,
};

// The host double used by these tests: the contract's own address, and a
// resolver that echoes any creator/subdenom pair back as a denomination.
const MOCK_CONTRACT_ADDR: &str = "cosmos2contract";
const DENOM_NAME: &str = "mydenom";
const DENOM_PREFIX: &str = "factory";

fn echo_resolve(creator_address: &str, subdenom: &str) -> Result<String, String> {
    Ok(format!("factory/{}/{}", creator_address, subdenom))
}

fn strict_resolve(creator_address: &str, subdenom: &str) -> Result<String, String> {
    if creator_address.is_empty() {
        return Err(String::from("invalid creator address"));
    }
    if subdenom.is_empty() {
        return Err(String::from("invalid subdenom"));
    }
    Ok(format!("factory/{}/{}", creator_address, subdenom))
}

/// Runs a dispatched command to completion, answering every host request:
/// the address verdict is `addr_ok`, denominations are resolved by `resolve`.
fn drive(
    start: Result<Step, TokenFactoryError>,
    addr_ok: bool,
    resolve: fn(&str, &str) -> Result<String, String>,
) -> Result<Response, TokenFactoryError> {
    let mut step = start?;
    loop {
        match step {
            Step::Done { response } => return Ok(response),
            Step::CheckAddress { address, then } => {
                let outcome = if addr_ok {
                    Ok(())
                } else {
                    Err(format!("invalid address: {}", address))
                };
                step = resume_address_check(then, outcome)?;
            }
            Step::Resolve {
                creator_address,
                subdenom,
                then,
            } => {
                let outcome = resolve(&creator_address, &subdenom);
                return resume_resolution(then, outcome);
            }
        }
    }
}

/// The denomination validation as one call, with the resolver's verdict
/// folded in.
fn validate_denom_with(
    denom: &str,
    resolve: fn(&str, &str) -> Result<String, String>,
) -> Result<(), TokenFactoryError> {
    let parts = validate_denom(denom)?;
    apply_resolution(denom, resolve(&parts.creator_address, &parts.subdenom))
}

#[test]
fn proper_initialization() {
    let msg = InstantiateMsg {};
    let (_state, res) = instantiate(String::from("creator"), msg);
    assert_eq!(0, res.messages.len());
}

#[test]
fn query_get_denom() {
    let get_denom_query = QueryMsg::GetDenom {
        creator_address: String::from(MOCK_CONTRACT_ADDR),
        subdenom: String::from(DENOM_NAME),
    };
    let (creator_address, subdenom) = query(get_denom_query);
    let resolved = echo_resolve(&creator_address, &subdenom).unwrap();
    let get_denom_response = get_denom(resolved);
    assert_eq!(
        format!("{}/{}/{}", DENOM_PREFIX, MOCK_CONTRACT_ADDR, DENOM_NAME),
        get_denom_response.denom
    );
}

#[test]
fn msg_create_denom_success() {
    let subdenom: String = String::from(DENOM_NAME);

    let msg = ExecuteMsg::CreateDenom { subdenom };
    let res = drive(
        execute(String::from(MOCK_CONTRACT_ADDR), msg),
        true,
        echo_resolve,
    )
    .unwrap();

    assert_eq!(1, res.messages.len());

    let expected_message = Action::CreateDenom {
        subdenom: String::from(DENOM_NAME),
    };
    let actual_message = res.messages.get(0).unwrap();
    assert_eq!(&expected_message, actual_message);

    assert_eq!(1, res.attributes.len());

    let expected_attribute = Attribute {
        key: String::from("method"),
        value: String::from("create_denom"),
    };
    let actual_attribute = res.attributes.get(0).unwrap();
    assert_eq!(&expected_attribute, actual_attribute);
}

#[test]
fn msg_create_denom_invalid_subdenom() {
    let subdenom: String = String::from("");

    let msg = ExecuteMsg::CreateDenom { subdenom };
    let err = drive(
        execute(String::from(MOCK_CONTRACT_ADDR), msg),
        true,
        echo_resolve,
    )
    .unwrap_err();
    assert!(matches!(err, TokenFactoryError::InvalidSubdenom { .. }));
    assert!(err.text().contains("Invalid subdenom"));
}

#[test]
fn msg_validate_denom_too_many_parts_valid() {
    let full_denom_name: &str =
        &format!("{}/{}/{}", DENOM_PREFIX, MOCK_CONTRACT_ADDR, DENOM_NAME)[..];

    validate_denom_with(full_denom_name, echo_resolve).unwrap()
}

#[test]
fn msg_burn_tokens_success() {
    let mint_amount = 100u128;
    let full_denom_name: &str =
        &format!("{}/{}/{}", DENOM_PREFIX, MOCK_CONTRACT_ADDR, DENOM_NAME)[..];

    let msg = ExecuteMsg::BurnTokens {
        denom: String::from(full_denom_name),
        burn_from_address: None,
        amount: mint_amount,
    };
    let res = drive(
        execute(String::from(MOCK_CONTRACT_ADDR), msg),
        true,
        echo_resolve,
    )
    .unwrap();

    assert_eq!(1, res.messages.len());
    let expected_message = Action::BurnTokens {
        denom: String::from(full_denom_name),
        amount: mint_amount,
        burn_from_address: None,
    };
    let actual_message = res.messages.get(0).unwrap();
    assert_eq!(&expected_message, actual_message);

    assert_eq!(1, res.attributes.len());

    let expected_attribute = Attribute {
        key: String::from("method"),
        value: String::from("burn_tokens"),
    };
    let actual_attribute = res.attributes.get(0).unwrap();
    assert_eq!(&expected_attribute, actual_attribute);
}

#[test]
fn msg_burn_tokens_input_address() {
    let burn_amount = 100u128;
    let full_denom_name: &str =
        &format!("{}/{}/{}", DENOM_PREFIX, MOCK_CONTRACT_ADDR, DENOM_NAME)[..];

    let msg = ExecuteMsg::BurnTokens {
        denom: String::from(full_denom_name),
        burn_from_address: Some(MOCK_CONTRACT_ADDR.to_string()),
        amount: burn_amount,
    };
    let result = drive(
        execute(String::from(MOCK_CONTRACT_ADDR), msg),
        true,
        echo_resolve,
    );
    assert!(result.is_ok())
}

#[test]
fn msg_force_transfer_tokens_address() {
    let transfer_from_addr: &str = "transferme";
    let transfer_to_addr: &str = "tome";

    let transfer_amount = 100u128;
    let full_denom_name: &str =
        &format!("{}/{}/{}", DENOM_PREFIX, MOCK_CONTRACT_ADDR, DENOM_NAME)[..];

    let msg = ExecuteMsg::ForceTransfer {
        denom: String::from(full_denom_name),
        amount: transfer_amount,
        from_address: transfer_from_addr.to_string(),
        to_address: transfer_to_addr.to_string(),
    };

    let err = drive(
        execute(String::from(MOCK_CONTRACT_ADDR), msg),
        true,
        echo_resolve,
    )
    .is_ok();
    assert!(err)
}

#[test]
fn msg_validate_denom_too_many_parts_invalid() {
    let full_denom_name: &str = &format!(
        "{}/{}/{}/invalid",
        DENOM_PREFIX, MOCK_CONTRACT_ADDR, DENOM_NAME
    )[..];

    let err = validate_denom_with(full_denom_name, echo_resolve).unwrap_err();

    let expected_error = TokenFactoryError::InvalidDenom {
        denom: String::from(full_denom_name),
        message: String::from("denom must have 3 parts separated by /, had 4"),
    };

    assert!(matches!(err, TokenFactoryError::InvalidDenom { .. }));
    assert_eq!(err.text(), expected_error.text());
}

#[test]
fn msg_validate_denom_not_enough_parts_invalid() {
    let full_denom_name: &str = &format!("{}/{}", DENOM_PREFIX, MOCK_CONTRACT_ADDR)[..];

    let err = validate_denom_with(full_denom_name, echo_resolve).unwrap_err();

    let expected_error = TokenFactoryError::InvalidDenom {
        denom: String::from(full_denom_name),
        message: String::from("denom must have 3 parts separated by /, had 2"),
    };

    assert!(matches!(err, TokenFactoryError::InvalidDenom { .. }));
    assert_eq!(err.text(), expected_error.text());
}

#[test]
fn msg_validate_denom_denom_prefix_invalid() {
    let full_denom_name: &str =
        &format!("{}/{}/{}", "invalid", MOCK_CONTRACT_ADDR, DENOM_NAME)[..];

    let err = validate_denom_with(full_denom_name, echo_resolve).unwrap_err();

    let expected_error = TokenFactoryError::InvalidDenom {
        denom: String::from(full_denom_name),
        message: String::from("prefix must be 'factory', was invalid"),
    };

    assert!(matches!(err, TokenFactoryError::InvalidDenom { .. }));
    assert_eq!(err.text(), expected_error.text());
}

#[test]
fn msg_validate_denom_creator_address_invalid() {
    let full_denom_name: &str = &format!("{}/{}/{}", DENOM_PREFIX, "", DENOM_NAME)[..];

    let err = validate_denom_with(full_denom_name, strict_resolve).unwrap_err();

    match err {
        TokenFactoryError::InvalidDenom { denom, message } => {
            assert_eq!(String::from(full_denom_name), denom);
            assert!(message.contains("invalid creator address"))
        }
        err => panic!("Unexpected error: {:?}", err),
    }
}

#[test]
fn test_burn_tokens_serialization() {
    let burn_none = Action::BurnTokens {
        denom: "factory/cosmos1.../subdenom".to_string(),
        amount: 100u128,
        burn_from_address: None,
    };
    let json_none = action_to_json(&burn_none);
    assert!(
        !json_none.contains("burn_from_address"),
        "burn_from_address should not appear when None: {}",
        json_none
    );

    let burn_some = Action::BurnTokens {
        denom: "factory/cosmos1.../subdenom".to_string(),
        amount: 100u128,
        burn_from_address: Some("cosmos1abc".to_string()),
    };
    let json_some = action_to_json(&burn_some);
    assert!(
        json_some.contains("burn_from_address"),
        "burn_from_address should appear when Some: {}",
        json_some
    );
    assert!(
        json_some.contains("cosmos1abc"),
        "burn_from_address value should be included: {}",
        json_some
    );
}
