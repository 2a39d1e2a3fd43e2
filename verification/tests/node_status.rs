use htlc_ledger::status::{
    interpret_rest_getinfo, invoice_state_update, locked_from_probes, node_info_from_getinfo,
    poll_transition, sync_status_text, unlock_outcome, wallet_balance_from_output,
    wallet_lock_indicated, NodeState,
};

#[test]
fn getinfo_fields_fill_node_info() {
    let raw = "{\"version\":\"0.17.0\",\"block_height\":123456,\
               \"synced_to_chain\":true,\"identity_pubkey\":\"02ab\"}";
    let info = node_info_from_getinfo(true, true, raw, &"testnet".to_string());
    assert!(info.running);
    assert_eq!(info.version, "0.17.0");
    assert_eq!(info.block_height, 123456);
    assert!(info.synced);
    assert_eq!(info.identity_pubkey, "02ab");
    assert_eq!(info.network, "testnet");
}

#[test]
fn failed_probe_reads_as_not_running_with_defaults() {
    let info = node_info_from_getinfo(true, false, "ignored", &"mainnet".to_string());
    assert!(!info.running);
    assert_eq!(info.version, "unknown");
    assert_eq!(info.block_height, 0);
    assert!(!info.synced);
    assert_eq!(info.identity_pubkey, "unknown");
}

#[test]
fn malformed_getinfo_output_falls_back_to_defaults() {
    let info = node_info_from_getinfo(true, true, "not json", &"testnet".to_string());
    assert!(info.running);
    assert_eq!(info.version, "unknown");
    assert_eq!(info.block_height, 0);
}

#[test]
fn lock_indicators_are_spotted() {
    assert!(wallet_lock_indicated("rpc error: wallet locked, unlock it first"));
    assert!(wallet_lock_indicated("wallet not unlocked"));
    assert!(wallet_lock_indicated("current wallet state: LOCKED"));
    assert!(wallet_lock_indicated("please unlock it to enable full RPC access"));
    assert!(!wallet_lock_indicated("connection refused"));
    assert!(locked_from_probes("ok", "wallet locked"));
    assert!(!locked_from_probes("ok", "ok"));
}

#[test]
fn unlock_outcome_follows_recheck_and_stderr() {
    assert!(unlock_outcome(true, "", Some(false)));
    assert!(!unlock_outcome(true, "", Some(true)));
    assert!(!unlock_outcome(true, "", None));
    assert!(unlock_outcome(false, "rpc error: wallet already unlocked", None));
    assert!(!unlock_outcome(false, "bad password", None));
}

#[test]
fn rest_getinfo_classification() {
    let synced = "{\"synced_to_chain\":true,\"wallet_unlocked\":true}";
    let r = interpret_rest_getinfo(true, synced).unwrap();
    assert!(r.0);
    assert_eq!(r.1, "Chain synced");
    assert!(!r.2);
    let syncing = "{\"synced_to_chain\":false}";
    let r = interpret_rest_getinfo(true, syncing).unwrap();
    assert_eq!(r.1, "Syncing...");
    assert!(r.2);
    assert!(interpret_rest_getinfo(false, synced).is_none());
    assert!(interpret_rest_getinfo(true, "{}").is_none());
}

#[test]
fn poll_transition_reads_lock_as_running() {
    assert!(matches!(
        poll_transition(None),
        NodeState::Observed { running: false, wallet_locked: false, synced: false }
    ));
    assert!(matches!(
        poll_transition(Some((false, true, false))),
        NodeState::Observed { running: true, wallet_locked: true, synced: false }
    ));
    assert!(matches!(
        poll_transition(Some((true, false, true))),
        NodeState::Observed { running: true, wallet_locked: false, synced: true }
    ));
}

#[test]
fn invoice_state_updates_prefer_accepted() {
    assert_eq!(
        invoice_state_update("... \"state\": \"ACCEPTED\" ..."),
        Some("ACCEPTED".to_string())
    );
    assert_eq!(
        invoice_state_update("... \"state\": \"SETTLED\" ..."),
        Some("SETTLED".to_string())
    );
    assert_eq!(invoice_state_update("... \"state\": \"OPEN\" ..."), None);
}

#[test]
fn sync_status_line_is_exact() {
    assert_eq!(
        sync_status_text(true, &"testnet".to_string(), 42),
        "Synced: testnet \n(h: 42)"
    );
    assert_eq!(
        sync_status_text(false, &"mainnet".to_string(), 0),
        "Syncing: mainnet \n(h: 0)"
    );
}

#[test]
fn wallet_balance_reads_confirmed_field() {
    assert_eq!(
        wallet_balance_from_output(true, "{\"confirmed_balance\":\"1234\"}"),
        1234
    );
    assert_eq!(wallet_balance_from_output(false, "{\"confirmed_balance\":\"1\"}"), 0);
    assert_eq!(wallet_balance_from_output(true, "{\"confirmed_balance\":\"x\"}"), 0);
    assert_eq!(wallet_balance_from_output(true, "{}"), 0);
    assert_eq!(
        wallet_balance_from_output(true, "{\"confirmed_balance\":\"99999999999\"}"),
        0
    );
}
