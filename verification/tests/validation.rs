use seth_rpc::block_key::BlockKey;
use seth_rpc::block_key::validate_block_key;
use seth_rpc::errors::RpcError;
use seth_rpc::validators::validate_account_address;
use seth_rpc::validators::validate_storage_address;

fn invalid_params_msg<T>(r: Result<T, RpcError>) -> String {
    match r {
        Err(RpcError::InvalidParams(m)) => m,
        _ => panic!("expected an invalid-params error"),
    }
}

#[test]
fn account_address_of_full_length_is_stripped() {
    let addr = format!("0x{}", "a".repeat(40));
    assert_eq!(validate_account_address(addr).ok().unwrap(), "a".repeat(40));
}

#[test]
fn account_address_keeps_suffix_unchanged() {
    let addr = format!("0xZZ{}", "b".repeat(38));
    assert_eq!(
        validate_account_address(addr).ok().unwrap(),
        format!("ZZ{}", "b".repeat(38))
    );
}

#[test]
fn account_address_of_wrong_length_is_rejected() {
    let short = format!("0x{}", "a".repeat(39));
    assert_eq!(
        invalid_params_msg(validate_account_address(short)),
        "Invalid address length: 41 != 42"
    );
    let long = format!("0x{}", "a".repeat(41));
    assert_eq!(
        invalid_params_msg(validate_account_address(long)),
        "Invalid address length: 43 != 42"
    );
    assert_eq!(
        invalid_params_msg(validate_account_address(String::new())),
        "Invalid address length: 0 != 42"
    );
}

#[test]
fn storage_position_must_be_even_and_at_least_four() {
    assert_eq!(validate_storage_address("0xff".to_string()).ok().unwrap(), "ff");
    assert_eq!(
        validate_storage_address("0x0457".to_string()).ok().unwrap(),
        "0457"
    );
    assert_eq!(
        invalid_params_msg(validate_storage_address("0xf".to_string())),
        "Invalid storage position: 0xf"
    );
    assert_eq!(
        invalid_params_msg(validate_storage_address("0x".to_string())),
        "Invalid storage position: 0x"
    );
    assert_eq!(
        invalid_params_msg(validate_storage_address("0xabc".to_string())),
        "Invalid storage position: 0xabc"
    );
}

#[test]
fn storage_position_checks_length_only() {
    // Evenness of the whole string, nothing about the stripped suffix.
    assert_eq!(validate_storage_address("zzzz".to_string()).ok().unwrap(), "zz");
}

#[test]
fn block_key_latest_and_pending_parse() {
    assert!(matches!(
        validate_block_key("latest".to_string()),
        Ok(BlockKey::Latest)
    ));
    assert!(matches!(
        validate_block_key("pending".to_string()),
        Ok(BlockKey::Pending)
    ));
}

#[test]
fn block_key_earliest_is_a_capability_gap() {
    assert!(matches!(
        validate_block_key("earliest".to_string()),
        Err(RpcError::NotImplemented)
    ));
}

#[test]
fn block_key_number_parses_hex_quantities() {
    assert!(matches!(
        validate_block_key("0x10".to_string()),
        Ok(BlockKey::Number(16))
    ));
    assert!(matches!(
        validate_block_key("0x0".to_string()),
        Ok(BlockKey::Number(0))
    ));
    assert!(matches!(
        validate_block_key("0xFF".to_string()),
        Ok(BlockKey::Number(255))
    ));
}

#[test]
fn block_key_hash_parses_sixty_four_digits() {
    let hash = format!("0x{}", "deadbeef".repeat(8));
    match validate_block_key(hash) {
        Ok(BlockKey::Hash(bytes)) => {
            assert_eq!(bytes.len(), 32);
            assert_eq!(&bytes[0..4], &[0xde, 0xad, 0xbe, 0xef]);
        }
        _ => panic!("expected a hash key"),
    }
}

#[test]
fn block_key_malformed_inputs_are_invalid_params() {
    for bad in [
        "",
        "0x",
        "bogus",
        "0y10",
        "0x1g",
        "latest ",
        "0x10000000000000000",
        &format!("0x{}z{}", "0".repeat(31), "0".repeat(32)),
    ] {
        assert_eq!(
            invalid_params_msg(validate_block_key(bad.to_string())),
            "Failed to parse block number"
        );
    }
}
