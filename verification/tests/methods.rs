use seth_rpc::block_key::BlockKey;
use seth_rpc::errors::RpcError;
use seth_rpc::handlers::Account;
use seth_rpc::handlers::Lookup;
use seth_rpc::handlers::QueryAction;
use seth_rpc::handlers::WireValue;
use seth_rpc::handlers::accounts;
use seth_rpc::handlers::call;
use seth_rpc::handlers::get_balance;
use seth_rpc::handlers::get_balance_outcome;
use seth_rpc::handlers::get_code;
use seth_rpc::handlers::get_code_outcome;
use seth_rpc::handlers::get_storage_at;
use seth_rpc::handlers::get_storage_at_outcome;
use seth_rpc::handlers::sign;
use seth_rpc::registry::HandlerKind;
use seth_rpc::registry::dispatch;
use seth_rpc::registry::get_method_list;

fn addr_param() -> Option<String> {
    Some(format!("0x{}", "a".repeat(40)))
}

fn text_of(r: Result<WireValue, RpcError>) -> String {
    match r {
        Ok(WireValue::Text(t)) => t,
        _ => panic!("expected a text result"),
    }
}

#[test]
fn get_balance_resolves_a_full_request() {
    let r = get_balance(vec![addr_param(), Some("latest".to_string())]);
    match r {
        Ok(QueryAction::Account { address, block }) => {
            assert_eq!(address, "a".repeat(40));
            assert!(matches!(block, BlockKey::Latest));
        }
        _ => panic!("expected an account query"),
    }
}

#[test]
fn get_balance_found_account_encodes_balance_ten_as_0xa() {
    let lookup = Lookup::Found(Account { balance: 10, code: Vec::new() });
    assert_eq!(text_of(get_balance_outcome(lookup)), "0xa");
}

#[test]
fn get_balance_missing_account_is_null_not_an_error() {
    assert!(matches!(
        get_balance_outcome(Lookup::Missing),
        Ok(WireValue::Null)
    ));
}

#[test]
fn get_balance_rejects_wrong_shape() {
    for params in [
        vec![],
        vec![addr_param()],
        vec![addr_param(), Some("latest".to_string()), Some("extra".to_string())],
        vec![addr_param(), None],
        vec![None, Some("latest".to_string())],
    ] {
        match get_balance(params) {
            Err(RpcError::InvalidParams(m)) => {
                assert_eq!(m, "Takes [address: DATA(20), block: QUANTITY|TAG]")
            }
            _ => panic!("expected a schema error"),
        }
    }
}

#[test]
fn get_balance_propagates_block_key_errors() {
    assert!(matches!(
        get_balance(vec![addr_param(), Some("earliest".to_string())]),
        Err(RpcError::NotImplemented)
    ));
    match get_balance(vec![addr_param(), Some("bogus".to_string())]) {
        Err(RpcError::InvalidParams(m)) => assert_eq!(m, "Failed to parse block number"),
        _ => panic!("expected an invalid-params error"),
    }
}

#[test]
fn get_balance_checks_address_after_block_key() {
    match get_balance(vec![Some("0x1234".to_string()), Some("latest".to_string())]) {
        Err(RpcError::InvalidParams(m)) => assert_eq!(m, "Invalid address length: 6 != 42"),
        _ => panic!("expected an invalid-params error"),
    }
    // A bad block selector outranks a bad address, as the handler
    // validates the block key first.
    match get_balance(vec![Some("0x1234".to_string()), Some("bogus".to_string())]) {
        Err(RpcError::InvalidParams(m)) => assert_eq!(m, "Failed to parse block number"),
        _ => panic!("expected an invalid-params error"),
    }
}

#[test]
fn get_storage_at_three_char_position_never_reaches_the_ledger() {
    // The decision stage rejects the request outright: no query action is
    // produced, so the surrounding program has nothing to ask the ledger.
    let r = get_storage_at(vec![
        addr_param(),
        Some("0xf".to_string()),
        Some("latest".to_string()),
    ]);
    match r {
        Err(RpcError::InvalidParams(m)) => assert_eq!(m, "Invalid storage position: 0xf"),
        _ => panic!("expected an invalid-params error"),
    }
}

#[test]
fn get_storage_at_resolves_a_full_request() {
    let r = get_storage_at(vec![
        addr_param(),
        Some("0x0457".to_string()),
        Some("0x10".to_string()),
    ]);
    match r {
        Ok(QueryAction::Storage { address, position, block }) => {
            assert_eq!(address, "a".repeat(40));
            assert_eq!(position, "0457");
            assert!(matches!(block, BlockKey::Number(16)));
        }
        _ => panic!("expected a storage query"),
    }
}

#[test]
fn get_storage_at_rejects_wrong_shape() {
    match get_storage_at(vec![addr_param(), Some("latest".to_string())]) {
        Err(RpcError::InvalidParams(m)) => {
            assert_eq!(
                m,
                "Takes [address: DATA(20), position: QUANTITY, block: QUANTITY|TAG]"
            )
        }
        _ => panic!("expected a schema error"),
    }
}

#[test]
fn get_storage_at_found_bytes_are_prefixed_hex() {
    let r = get_storage_at_outcome(Lookup::Found(vec![0x04, 0x57]));
    assert_eq!(text_of(r), "0x0457");
    assert!(matches!(
        get_storage_at_outcome(Lookup::Missing),
        Ok(WireValue::Null)
    ));
}

#[test]
fn get_code_found_account_encodes_code_bytes() {
    let lookup = Lookup::Found(Account { balance: 7, code: vec![0xde, 0xad] });
    assert_eq!(text_of(get_code_outcome(lookup)), "0xdead");
    let empty = Lookup::Found(Account { balance: 7, code: Vec::new() });
    assert_eq!(text_of(get_code_outcome(empty)), "0x");
}

#[test]
fn get_code_resolves_like_get_balance() {
    let r = get_code(vec![addr_param(), Some("latest".to_string())]);
    assert!(matches!(r, Ok(QueryAction::Account { .. })));
}

#[test]
fn stubbed_methods_always_fail_not_implemented() {
    for params in [
        vec![],
        vec![addr_param()],
        vec![addr_param(), Some("latest".to_string())],
        vec![None, None, None],
    ] {
        assert!(matches!(sign(params.clone()), Err(RpcError::NotImplemented)));
        assert!(matches!(call(params.clone()), Err(RpcError::NotImplemented)));
        assert!(matches!(accounts(params), Err(RpcError::NotImplemented)));
    }
}

#[test]
fn client_failures_are_never_exposed_verbatim() {
    for backend_text in ["connection refused", "validator backend panicked at state.rs", ""] {
        let balance = get_balance_outcome(Lookup::Found(Account {
            balance: 0,
            code: Vec::new(),
        }));
        assert!(balance.is_ok());
        assert!(matches!(
            get_balance_outcome(Lookup::Failed(backend_text.to_string())),
            Err(RpcError::InternalError)
        ));
        assert!(matches!(
            get_code_outcome(Lookup::Failed(backend_text.to_string())),
            Err(RpcError::InternalError)
        ));
        assert!(matches!(
            get_storage_at_outcome(Lookup::Failed(backend_text.to_string())),
            Err(RpcError::InternalError)
        ));
    }
}

#[test]
fn method_list_has_the_six_names_in_order() {
    let methods = get_method_list();
    let names: Vec<&str> = methods.iter().map(|(n, _)| n.as_str()).collect();
    assert_eq!(
        names,
        vec![
            "eth_getBalance",
            "eth_getStorageAt",
            "eth_getCode",
            "eth_sign",
            "eth_call",
            "eth_accounts",
        ]
    );
    assert_eq!(methods[0].1, HandlerKind::GetBalance);
    assert_eq!(methods[1].1, HandlerKind::GetStorageAt);
    assert_eq!(methods[2].1, HandlerKind::GetCode);
    assert_eq!(methods[3].1, HandlerKind::Sign);
    assert_eq!(methods[4].1, HandlerKind::Call);
    assert_eq!(methods[5].1, HandlerKind::Accounts);
}

#[test]
fn dispatch_routes_to_the_named_handler() {
    let ok = dispatch(
        HandlerKind::GetBalance,
        vec![addr_param(), Some("latest".to_string())],
    );
    assert!(matches!(ok, Ok(QueryAction::Account { .. })));
    assert!(matches!(
        dispatch(HandlerKind::Sign, vec![]),
        Err(RpcError::NotImplemented)
    ));
    assert!(matches!(
        dispatch(HandlerKind::Accounts, vec![addr_param()]),
        Err(RpcError::NotImplemented)
    ));
}
