use htlc_ledger::annotate_ownership;
use htlc_ledger::errors::CliError;
use htlc_ledger::gateway::{
    classify_cli_result, connect_args, custom_message_args, decodepayreq_args, hold_invoice_args,
    lncli_invocation, network_args, open_channel_args, peer_address, settle_args,
    standard_invoice_args,
};

#[test]
fn failed_command_carries_stderr() {
    let r = classify_cli_result(
        None,
        false,
        "".to_string(),
        "unknown flag --bogus".to_string(),
    );
    match r {
        Err(CliError::CommandFailed(msg)) => assert_eq!(msg, "unknown flag --bogus"),
        _ => panic!("expected a command failure carrying stderr"),
    }
}

#[test]
fn spawn_failure_carries_os_report() {
    let r = classify_cli_result(
        Some("no such file".to_string()),
        false,
        String::new(),
        String::new(),
    );
    assert!(matches!(r, Err(CliError::SpawnFailed(m)) if m == "no such file"));
}

#[test]
fn clean_exit_hands_back_stdout() {
    let r = classify_cli_result(None, true, "{\"ok\":true}".to_string(), String::new());
    assert_eq!(r.unwrap(), "{\"ok\":true}");
}

#[test]
fn invocation_without_certificate() {
    let args = vec!["getinfo".to_string()];
    let full = lncli_invocation(None, &args);
    assert_eq!(
        full,
        vec![
            "--network=testnet".to_string(),
            "--rpcserver=127.0.0.1:10009".to_string(),
            "--no-macaroons".to_string(),
            "--insecure".to_string(),
            "getinfo".to_string(),
        ]
    );
}

#[test]
fn invocation_with_certificate() {
    let path = "/tmp/tls.cert".to_string();
    let full = lncli_invocation(Some(&path), &vec![]);
    assert_eq!(full.len(), 5);
    assert_eq!(full[4], "--tlscertpath=/tmp/tls.cert");
}

#[test]
fn invoice_and_settlement_argument_lists() {
    let args = hold_invoice_args(
        &"ffee".to_string(),
        &"1000".to_string(),
        &"coffee".to_string(),
    );
    assert_eq!(
        args,
        vec!["addholdinvoice", "ffee", "--amt", "1000", "--memo", "coffee"]
            .into_iter()
            .map(String::from)
            .collect::<Vec<String>>()
    );
    assert_eq!(
        standard_invoice_args(&"42".to_string(), &"tea".to_string()),
        vec!["addinvoice", "--amt", "42", "--memo", "tea"]
            .into_iter()
            .map(String::from)
            .collect::<Vec<String>>()
    );
    assert_eq!(
        settle_args(&"aabb".to_string()),
        vec!["settleinvoice".to_string(), "aabb".to_string()]
    );
    assert_eq!(
        decodepayreq_args(&"lnbc1".to_string()),
        vec!["decodepayreq".to_string(), "lnbc1".to_string()]
    );
}

#[test]
fn peer_and_channel_argument_lists() {
    let addr = peer_address(&"02ab".to_string(), &"example.org".to_string(), 9735);
    assert_eq!(addr, "02ab@example.org:9735");
    assert_eq!(
        connect_args(&addr),
        vec!["connect".to_string(), "02ab@example.org:9735".to_string()]
    );
    assert_eq!(
        open_channel_args(&"02ab".to_string(), 20000),
        vec!["openchannel".to_string(), "02ab".to_string(), "20000".to_string()]
    );
    assert_eq!(
        network_args(&"mainnet".to_string()),
        vec!["--network".to_string(), "mainnet".to_string()]
    );
}

#[test]
fn custom_message_payload_is_hex_encoded() {
    let args = custom_message_args("hello there", &"02ab".to_string());
    assert_eq!(
        args,
        vec![
            "sendcustom".to_string(),
            "--peer".to_string(),
            "02ab".to_string(),
            "--data".to_string(),
            "68656c6c6f207468657265".to_string(),
            "--type".to_string(),
            "32768".to_string(),
        ]
    );
}

#[test]
fn ownership_is_key_equality() {
    let a = "02aa".to_string();
    let a2 = "02aa".to_string();
    let b = "02bb".to_string();
    assert!(annotate_ownership(&a, &a2));
    assert!(!annotate_ownership(&a, &b));
}
