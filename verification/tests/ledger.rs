use htlc_ledger::errors::SettlementError;
use htlc_ledger::records::InvoiceData;
use htlc_ledger::store::Ledger;

fn record(hash: &str, preimage: &str, addr: &str, own: bool) -> InvoiceData {
    InvoiceData {
        preimage_x: preimage.to_string(),
        preimage_h: hash.to_string(),
        payment_address: addr.to_string(),
        r_hash: hash.to_string(),
        is_own_invoice: own,
    }
}

#[test]
fn put_then_get_returns_what_was_written() {
    let mut ledger = Ledger::temporary().unwrap();
    let rec = record("aa11", "bb22", "addr-1", true);
    ledger.put_invoice(&rec).unwrap();
    let read = ledger.get_invoice(&"aa11".to_string()).unwrap().unwrap();
    assert!(read == rec);
}

#[test]
fn get_absent_hash_is_none() {
    let ledger = Ledger::temporary().unwrap();
    assert!(ledger.get_invoice(&"absent".to_string()).unwrap().is_none());
}

#[test]
fn resolve_empty_preimage_fails_with_empty_preimage() {
    let mut ledger = Ledger::temporary().unwrap();
    let rec = record("cc33", "", "addr-2", false);
    ledger.put_invoice(&rec).unwrap();
    let r = ledger.resolve_preimage_for_settlement(&"cc33".to_string());
    assert!(matches!(r, Err(SettlementError::EmptyPreimage)));
}

#[test]
fn resolve_absent_hash_fails_with_not_found() {
    let ledger = Ledger::temporary().unwrap();
    let r = ledger.resolve_preimage_for_settlement(&"dd44".to_string());
    assert!(matches!(r, Err(SettlementError::NotFound)));
}

#[test]
fn resolve_returns_stored_preimage() {
    let mut ledger = Ledger::temporary().unwrap();
    let rec = record("ee55", "fedcba", "addr-3", true);
    ledger.put_invoice(&rec).unwrap();
    let p = ledger.resolve_preimage_for_settlement(&"ee55".to_string()).unwrap();
    assert_eq!(p, "fedcba");
}

#[test]
fn resolve_undecodable_value_fails_with_corrupt() {
    // A settings write stores raw text under its key; that text is not a
    // record encoding, so a settlement lookup on the same key reports
    // corruption.
    let mut ledger = Ledger::temporary().unwrap();
    ledger.set_network(&"mainnet".to_string()).unwrap();
    let r = ledger.resolve_preimage_for_settlement(&"network".to_string());
    assert!(matches!(r, Err(SettlementError::Corrupt)));
}

#[test]
fn ownership_lookup_reads_the_stored_flag() {
    let mut ledger = Ledger::temporary().unwrap();
    ledger.put_invoice(&record("a1", "pp", "addr", true)).unwrap();
    ledger.put_invoice(&record("b2", "qq", "addr", false)).unwrap();
    assert!(ledger.stored_ownership(&"a1".to_string()).unwrap());
    assert!(!ledger.stored_ownership(&"b2".to_string()).unwrap());
    assert!(!ledger.stored_ownership(&"absent".to_string()).unwrap());
    // An undecodable stored value reads as not owned, like the original's
    // deserialization fallback.
    ledger.set_network(&"mainnet".to_string()).unwrap();
    assert!(!ledger.stored_ownership(&"network".to_string()).unwrap());
}

#[test]
fn last_write_wins_on_same_hash() {
    let mut ledger = Ledger::temporary().unwrap();
    ledger.put_invoice(&record("ff66", "aaaa", "first-address", true)).unwrap();
    ledger.put_invoice(&record("ff66", "aaaa", "second-address", true)).unwrap();
    let read = ledger.get_invoice(&"ff66".to_string()).unwrap().unwrap();
    assert_eq!(read.payment_address, "second-address");
}

#[test]
fn network_defaults_to_testnet_and_remembers_writes() {
    let mut ledger = Ledger::temporary().unwrap();
    assert_eq!(ledger.stored_network().unwrap(), "testnet");
    ledger.set_network(&"mainnet".to_string()).unwrap();
    assert_eq!(ledger.stored_network().unwrap(), "mainnet");
}

#[test]
fn identity_defaults_to_empty_and_remembers_writes() {
    let mut ledger = Ledger::temporary().unwrap();
    assert_eq!(ledger.stored_identity().unwrap(), "");
    ledger.store_identity(&"02abcdef".to_string()).unwrap();
    assert_eq!(ledger.stored_identity().unwrap(), "02abcdef");
}
