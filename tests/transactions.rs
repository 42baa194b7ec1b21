use safe_client_gateway::backend::{
    Confirmation, ModuleTransaction, MultisigTransaction, Operation, SafeInfo, TokenInfo,
    TokenType,
};
use safe_client_gateway::converters::data_size;
use safe_client_gateway::decoded::{DataDecoded, Parameter};
use safe_client_gateway::service::{TransactionInfo, TransactionStatus, TransferInfo};
use safe_client_gateway::text::{decimal_string, is_positive_amount};

const SAFE: &str = "0x1230B3d59858296A31053C1b8562Ecf89A2f888b";
const TOKEN: &str = "0xD81F7D71ed570D121A1Ef9e3Bc0fc2bd6192De46";

fn call(method: &str, params: &[(&str, &str)]) -> DataDecoded {
    DataDecoded::new(
        method,
        params.iter().map(|(n, v)| Parameter::new(n, v)).collect(),
    )
}

fn tx(to: &str) -> MultisigTransaction {
    MultisigTransaction {
        safe: SAFE.to_string(),
        to: to.to_string(),
        value: None,
        data: None,
        data_decoded: None,
        operation: Operation::CALL,
        nonce: 6,
        is_executed: false,
        is_successful: None,
        confirmations: None,
        confirmations_required: None,
    }
}

fn token(token_type: TokenType) -> TokenInfo {
    TokenInfo {
        address: TOKEN.to_string(),
        name: "Token".to_string(),
        symbol: "TKN".to_string(),
        decimals: 18,
        logo_uri: Some("https://example.org/logo.png".to_string()),
        token_type,
    }
}

fn confirmations(n: usize) -> Option<Vec<Confirmation>> {
    Some(
        (0..n)
            .map(|i| Confirmation { owner: format!("0x{}", i), signature: None })
            .collect(),
    )
}

fn custom_fields(info: &TransactionInfo) -> (String, String, String) {
    match info {
        TransactionInfo::Custom(c) => (c.to.clone(), c.data_size.clone(), c.value.clone()),
        _ => panic!("expected a custom call"),
    }
}

#[test]
fn status_executed_successful() {
    let mut t = tx(TOKEN);
    t.is_executed = true;
    t.is_successful = Some(true);
    assert_eq!(t.map_status(&SafeInfo { nonce: 6, threshold: 2 }), TransactionStatus::Success);
}

#[test]
fn status_executed_without_success_flag() {
    let mut t = tx(TOKEN);
    t.is_executed = true;
    t.is_successful = None;
    assert_eq!(t.map_status(&SafeInfo { nonce: 6, threshold: 2 }), TransactionStatus::Failed);
    t.is_successful = Some(false);
    assert_eq!(t.map_status(&SafeInfo { nonce: 6, threshold: 2 }), TransactionStatus::Failed);
}

#[test]
fn status_cancelled_when_nonce_passed() {
    let mut t = tx(TOKEN);
    t.nonce = 5;
    assert_eq!(t.map_status(&SafeInfo { nonce: 6, threshold: 2 }), TransactionStatus::Cancelled);
}

#[test]
fn status_awaiting_confirmations() {
    let mut t = tx(TOKEN);
    t.confirmations = confirmations(1);
    assert_eq!(
        t.map_status(&SafeInfo { nonce: 6, threshold: 2 }),
        TransactionStatus::AwaitingConfirmations
    );
}

#[test]
fn status_awaiting_execution() {
    let mut t = tx(TOKEN);
    t.confirmations = confirmations(2);
    assert_eq!(
        t.map_status(&SafeInfo { nonce: 6, threshold: 2 }),
        TransactionStatus::AwaitingExecution
    );
}

#[test]
fn status_uses_own_required_count() {
    let mut t = tx(TOKEN);
    t.confirmations = confirmations(2);
    t.confirmations_required = Some(3);
    assert_eq!(
        t.map_status(&SafeInfo { nonce: 6, threshold: 2 }),
        TransactionStatus::AwaitingConfirmations
    );
    assert_eq!(t.confirmation_count(), 2);
    assert_eq!(t.confirmation_required(2), 3);
    t.confirmations = None;
    t.confirmations_required = None;
    assert_eq!(t.confirmation_count(), 0);
    assert_eq!(t.confirmation_required(4), 4);
}

#[test]
fn data_size_examples() {
    assert_eq!(data_size(&Some("0x".to_string())), "0");
    assert_eq!(data_size(&Some("0xabcd".to_string())), "4");
    assert_eq!(data_size(&None), "0");
    assert_eq!(data_size(&Some("".to_string())), "0");
    assert_eq!(data_size(&Some("a".to_string())), "0");
    assert_eq!(data_size(&Some(format!("0x{}", "ab".repeat(68)))), "136");
}

#[test]
fn decimal_string_examples() {
    assert_eq!(decimal_string(0), "0");
    assert_eq!(decimal_string(7), "7");
    assert_eq!(decimal_string(10), "10");
    assert_eq!(decimal_string(1234567890), "1234567890");
    assert_eq!(decimal_string(usize::MAX), usize::MAX.to_string());
}

#[test]
fn positive_amount_reading() {
    assert!(is_positive_amount("1"));
    assert!(is_positive_amount("+42"));
    assert!(is_positive_amount("2147483647"));
    assert!(!is_positive_amount("0"));
    assert!(!is_positive_amount("-5"));
    assert!(!is_positive_amount("abc"));
    assert!(!is_positive_amount(""));
    assert!(!is_positive_amount(" 1"));
    assert!(is_positive_amount("2147483648"));
    assert!(is_positive_amount("3000000000"));
    assert!(is_positive_amount("1000000000000000000"));
    assert!(is_positive_amount("000000000000000000000000000001"));
    assert!(!is_positive_amount("-1000000000000000000"));
    assert!(!is_positive_amount("-0"));
    assert!(!is_positive_amount("+0"));
    assert!(!is_positive_amount("0000"));
    assert!(!is_positive_amount("+"));
    assert!(!is_positive_amount("-"));
    assert!(!is_positive_amount("1_000"));
    assert!(!is_positive_amount("12a"));
    assert!(!is_positive_amount("1 "));
    assert!(!is_positive_amount("\u{0661}"));
}

#[test]
fn ether_transfer_with_large_value() {
    for v in ["3000000000", "1000000000000000000", "115792089237316195423570985008687907853269984665640564039457584007913129639935"] {
        let mut t = tx(TOKEN);
        t.value = Some(v.to_string());
        assert!(t.is_ether_transfer());
        match t.transaction_info(&None) {
            TransactionInfo::Transfer(tr) => {
                assert_eq!(tr.sender, SAFE);
                assert_eq!(tr.recipient, TOKEN);
                match tr.transfer_info {
                    TransferInfo::Ether(e) => assert_eq!(e.value, v),
                    _ => panic!("expected an ether transfer"),
                }
            }
            _ => panic!("expected a transfer"),
        }
    }
}

#[test]
fn ether_transfer_with_zero_value_is_custom() {
    let mut t = tx(TOKEN);
    t.value = Some("0".to_string());
    assert!(!t.is_ether_transfer());
    let info = t.transaction_info(&None);
    assert_eq!(custom_fields(&info), (TOKEN.to_string(), "0".to_string(), "0".to_string()));
}

#[test]
fn ether_transfer_with_positive_value() {
    let mut t = tx(TOKEN);
    t.value = Some("100".to_string());
    assert!(t.is_ether_transfer());
    match t.transaction_info(&None) {
        TransactionInfo::Transfer(tr) => {
            assert_eq!(tr.sender, SAFE);
            assert_eq!(tr.recipient, TOKEN);
            match tr.transfer_info {
                TransferInfo::Ether(e) => assert_eq!(e.value, "100"),
                _ => panic!("expected an ether transfer"),
            }
        }
        _ => panic!("expected a transfer"),
    }
}

#[test]
fn ether_transfer_needs_no_data_and_a_call() {
    let mut t = tx(TOKEN);
    t.value = Some("100".to_string());
    t.data = Some("0x".to_string());
    assert_eq!(
        custom_fields(&t.transaction_info(&None)),
        (TOKEN.to_string(), "0".to_string(), "100".to_string())
    );
    t.data = None;
    t.operation = Operation::DELEGATE;
    assert!(!t.is_ether_transfer());
    assert!(matches!(t.transaction_info(&None), TransactionInfo::Custom(_)));
}

#[test]
fn settings_change_detected() {
    let mut t = tx(SAFE);
    t.data = Some("0xabcdef".to_string());
    t.data_decoded = Some(call("changeThreshold", &[("_threshold", "2")]));
    assert!(t.is_settings_change());
    match t.transaction_info(&None) {
        TransactionInfo::SettingsChange(s) => {
            assert_eq!(s.data_decoded.method, "changeThreshold");
            assert_eq!(s.data_decoded.get_parameter_value("_threshold"), Some("2".to_string()));
        }
        _ => panic!("expected a settings change"),
    }
    let sc = t.to_settings_change();
    assert_eq!(sc.data_decoded.parameters.len(), 1);
}

#[test]
fn settings_change_needs_call_to_safe() {
    let mut t = tx(TOKEN);
    t.data = Some("0xabcdef".to_string());
    t.data_decoded = Some(call("changeThreshold", &[("_threshold", "2")]));
    assert!(!t.is_settings_change());
    assert_eq!(custom_fields(&t.transaction_info(&None)).1, "6");
    let mut d = tx(SAFE);
    d.operation = Operation::DELEGATE;
    d.data_decoded = Some(call("changeThreshold", &[]));
    assert!(!d.is_settings_change());
}

#[test]
fn settings_change_wins_over_erc20_shape() {
    let mut t = tx(SAFE);
    t.data = Some("0xa9059cbb".to_string());
    t.data_decoded = Some(call("addOwnerWithThreshold", &[("to", "0xabc"), ("value", "5")]));
    let tok = Some(token(TokenType::Erc20));
    assert!(matches!(t.transaction_info(&tok), TransactionInfo::SettingsChange(_)));
}

#[test]
fn erc20_transfer_fields() {
    let mut t = tx(TOKEN);
    t.data = Some("0xa9059cbb".to_string());
    t.data_decoded = Some(call("transfer", &[("to", "0xBob"), ("value", "1000")]));
    let tok = Some(token(TokenType::Erc20));
    assert!(t.is_erc20_transfer(&tok));
    match t.transaction_info(&tok) {
        TransactionInfo::Transfer(tr) => {
            assert_eq!(tr.sender, SAFE);
            assert_eq!(tr.recipient, "0xBob");
            match tr.transfer_info {
                TransferInfo::Erc20(e) => {
                    assert_eq!(e.token_address, TOKEN);
                    assert_eq!(e.token_name, Some("Token".to_string()));
                    assert_eq!(e.token_symbol, Some("TKN".to_string()));
                    assert_eq!(e.decimals, Some(18));
                    assert_eq!(e.logo_uri, Some("https://example.org/logo.png".to_string()));
                    assert_eq!(e.value, "1000");
                }
                _ => panic!("expected an erc20 transfer"),
            }
        }
        _ => panic!("expected a transfer"),
    }
}

#[test]
fn erc20_transfer_defaults() {
    let mut t = tx(TOKEN);
    t.data_decoded = Some(call("transferFrom", &[]));
    let tr = t.to_erc20_transfer(&token(TokenType::Erc20));
    assert_eq!(tr.recipient, "0x0");
    match tr.transfer_info {
        TransferInfo::Erc20(e) => assert_eq!(e.value, "0"),
        _ => panic!("expected an erc20 transfer"),
    }
}

#[test]
fn token_lookup_absent_or_other_gives_custom() {
    let mut t = tx(TOKEN);
    t.data = Some("0xa9059cbb".to_string());
    t.data_decoded = Some(call("transfer", &[("to", "0xBob"), ("value", "1000")]));
    assert!(matches!(t.transaction_info(&None), TransactionInfo::Custom(_)));
    let other = Some(token(TokenType::Other));
    assert!(matches!(t.transaction_info(&other), TransactionInfo::Custom(_)));
}

#[test]
fn erc20_needs_transfer_method() {
    let mut t = tx(TOKEN);
    t.data_decoded = Some(call("approve", &[("spender", "0xBob"), ("value", "1")]));
    let tok = Some(token(TokenType::Erc20));
    assert!(!t.is_erc20_transfer(&tok));
    t.data_decoded = Some(call("safeTransferFrom", &[]));
    assert!(!t.is_erc20_transfer(&tok));
    assert!(t.is_erc721_transfer(&Some(token(TokenType::Erc721))));
}

#[test]
fn token_type_decides_between_transfers() {
    let mut t = tx(TOKEN);
    t.data_decoded = Some(call("transfer", &[("to", "0xBob"), ("value", "7")]));
    match t.transaction_info(&Some(token(TokenType::Erc20))) {
        TransactionInfo::Transfer(tr) => assert!(matches!(tr.transfer_info, TransferInfo::Erc20(_))),
        _ => panic!("expected a transfer"),
    }
    match t.transaction_info(&Some(token(TokenType::Erc721))) {
        TransactionInfo::Transfer(tr) => match tr.transfer_info {
            TransferInfo::Erc721(e) => assert_eq!(e.token_id, "7"),
            _ => panic!("expected an erc721 transfer"),
        },
        _ => panic!("expected a transfer"),
    }
}

fn erc721_parts(t: &MultisigTransaction) -> (String, String) {
    let tr = t.to_erc721_transfer(&token(TokenType::Erc721));
    match tr.transfer_info {
        TransferInfo::Erc721(e) => (tr.recipient, e.token_id),
        _ => panic!("expected an erc721 transfer"),
    }
}

#[test]
fn erc721_fallback_to_keys() {
    let mut t = tx(TOKEN);
    t.data_decoded = Some(call("transferFrom", &[("to", "0xBob"), ("value", "9")]));
    assert_eq!(erc721_parts(&t), ("0xBob".to_string(), "9".to_string()));
}

#[test]
fn erc721_preferred_keys() {
    let mut t = tx(TOKEN);
    t.data_decoded = Some(call(
        "safeTransferFrom",
        &[("to", "0xBob"), ("_to", "0xAlice"), ("value", "9"), ("tokenId", "3")],
    ));
    assert_eq!(erc721_parts(&t), ("0xAlice".to_string(), "3".to_string()));
}

#[test]
fn erc721_defaults() {
    let mut t = tx(TOKEN);
    t.data_decoded = Some(call("safeTransferFrom", &[("from", "0xCarol")]));
    assert_eq!(erc721_parts(&t), ("0x0".to_string(), "0".to_string()));
    t.data_decoded = None;
    assert_eq!(erc721_parts(&t), ("0x0".to_string(), "0".to_string()));
}

#[test]
fn custom_values() {
    let mut t = tx(TOKEN);
    t.data = Some("0x12345678".to_string());
    t.value = Some("5".to_string());
    assert_eq!(
        custom_fields(&TransactionInfo::Custom(t.to_custom())),
        (TOKEN.to_string(), "8".to_string(), "5".to_string())
    );
    t.value = None;
    assert_eq!(t.to_custom().value, "0");
}

#[test]
fn delegate_calls_are_custom() {
    let mut t = tx(SAFE);
    t.operation = Operation::DELEGATE;
    t.data_decoded = Some(call("changeThreshold", &[]));
    t.data = Some("0xab".to_string());
    assert!(matches!(t.transaction_info(&None), TransactionInfo::Custom(_)));
    let mut u = tx(TOKEN);
    u.operation = Operation::DELEGATE;
    u.data_decoded = Some(call("transfer", &[("to", "0xBob")]));
    assert!(matches!(u.transaction_info(&Some(token(TokenType::Erc20))), TransactionInfo::Custom(_)));
}

#[test]
fn module_transaction_is_custom() {
    let m = ModuleTransaction {
        safe: SAFE.to_string(),
        to: TOKEN.to_string(),
        value: None,
        data: Some("0xabcd".to_string()),
        operation: Operation::CALL,
    };
    assert_eq!(
        custom_fields(&m.to_transaction_info()),
        (TOKEN.to_string(), "4".to_string(), "0".to_string())
    );
    let n = ModuleTransaction { value: Some("12".to_string()), data: None, ..m };
    assert_eq!(custom_fields(&n.to_transaction_info()).1, "0");
    assert_eq!(custom_fields(&n.to_transaction_info()).2, "12");
}

#[test]
fn decoded_call_methods() {
    for m in [
        "setFallbackHandler",
        "addOwnerWithThreshold",
        "removeOwner",
        "swapOwner",
        "changeThreshold",
        "changeMasterCopy",
        "enableModule",
        "disableModule",
    ] {
        assert!(call(m, &[]).is_settings_change());
    }
    assert!(!call("execTransaction", &[]).is_settings_change());
    assert!(call("transfer", &[]).is_erc20_transfer_method());
    assert!(!call("safeTransferFrom", &[]).is_erc20_transfer_method());
    assert!(call("safeTransferFrom", &[]).is_erc721_transfer_method());
    let d = call("transfer", &[("to", "0xBob"), ("value", "1")]);
    assert_eq!(d.get_parameter_value("value"), Some("1".to_string()));
    assert_eq!(d.get_parameter_value("tokenId"), None);
    let copy = d.duplicate();
    assert_eq!(copy.method, "transfer");
    assert_eq!(copy.parameters[0].name, "to");
    assert_eq!(copy.parameters[1].value, "1");
}
