use htlc_ledger::errors::{InvoiceError, ParseError};
use htlc_ledger::flows::{make_hold_record, record_hold_invoice, record_standard_invoice};
use htlc_ledger::preimage::generate_preimage;
use htlc_ledger::store::Ledger;

#[test]
fn generated_hold_invoice_settles_with_its_preimage() {
    let (preimage_hex, hash_hex) = generate_preimage();
    let mut ledger = Ledger::temporary().unwrap();
    let rec = make_hold_record(&preimage_hex, &hash_hex, &"addr-e2e".to_string(), true);
    ledger.put_invoice(&rec).unwrap();
    let resolved = ledger.resolve_preimage_for_settlement(&hash_hex).unwrap();
    assert_eq!(resolved, preimage_hex);
}

#[test]
fn record_hold_invoice_stores_own_invoice() {
    let (preimage_hex, hash_hex) = generate_preimage();
    let mut ledger = Ledger::temporary().unwrap();
    let addinvoice_raw =
        "{\"payment_addr\":\"addr-hold\",\"payment_request\":\"lnbc1xyz\"}".to_string();
    let payreq_raw = "{\"destination\":\"02aabb\"}".to_string();
    let identity = "02aabb".to_string();
    let addr = record_hold_invoice(
        &preimage_hex,
        &hash_hex,
        &addinvoice_raw,
        &payreq_raw,
        &identity,
        &mut ledger,
    )
    .unwrap();
    assert_eq!(addr, "addr-hold");
    let rec = ledger.get_invoice(&hash_hex).unwrap().unwrap();
    assert_eq!(rec.preimage_x, preimage_hex);
    assert_eq!(rec.payment_address, "addr-hold");
    assert!(rec.is_own_invoice);
    assert_eq!(ledger.resolve_preimage_for_settlement(&hash_hex).unwrap(), preimage_hex);
}

#[test]
fn record_hold_invoice_marks_foreign_destination() {
    let (preimage_hex, hash_hex) = generate_preimage();
    let mut ledger = Ledger::temporary().unwrap();
    let addinvoice_raw =
        "{\"payment_addr\":\"addr-f\",\"payment_request\":\"lnbc1f\"}".to_string();
    let payreq_raw = "{\"destination\":\"02aabb\"}".to_string();
    let identity = "02ccdd".to_string();
    record_hold_invoice(
        &preimage_hex,
        &hash_hex,
        &addinvoice_raw,
        &payreq_raw,
        &identity,
        &mut ledger,
    )
    .unwrap();
    let rec = ledger.get_invoice(&hash_hex).unwrap().unwrap();
    assert!(!rec.is_own_invoice);
}

#[test]
fn record_hold_invoice_rejects_response_without_address() {
    let mut ledger = Ledger::temporary().unwrap();
    let addinvoice_raw = "{\"payment_request\":\"lnbc1xyz\"}".to_string();
    let payreq_raw = "{\"destination\":\"02aabb\"}".to_string();
    let r = record_hold_invoice(
        &"aa".to_string(),
        &"bb".to_string(),
        &addinvoice_raw,
        &payreq_raw,
        &"02aabb".to_string(),
        &mut ledger,
    );
    assert!(matches!(r, Err(InvoiceError::Parse(_))));
}

#[test]
fn failed_hold_recording_leaves_the_ledger_unchanged() {
    let mut ledger = Ledger::temporary().unwrap();
    let addinvoice_raw = "{\"payment_addr\":\"pa\"}".to_string();
    let payreq_raw = "{\"destination\":\"02aabb\"}".to_string();
    let r = record_hold_invoice(
        &"aa".to_string(),
        &"bb".to_string(),
        &addinvoice_raw,
        &payreq_raw,
        &"02aabb".to_string(),
        &mut ledger,
    );
    assert!(matches!(
        r,
        Err(InvoiceError::Parse(ParseError::MissingField(f))) if f == "payment_request"
    ));
    assert!(ledger.get_invoice(&"bb".to_string()).unwrap().is_none());
}

#[test]
fn standard_recording_names_the_missing_hash() {
    let mut ledger = Ledger::temporary().unwrap();
    let addinvoice_raw =
        "{\"payment_addr\":\"pa\",\"payment_request\":\"pr\"}".to_string();
    let payreq_raw = "{}".to_string();
    let r = record_standard_invoice(
        &addinvoice_raw,
        &payreq_raw,
        &"02aabb".to_string(),
        &mut ledger,
    );
    assert!(matches!(
        r,
        Err(InvoiceError::Parse(ParseError::MissingField(f))) if f == "r_hash"
    ));
    assert!(ledger.get_invoice(&"pa".to_string()).unwrap().is_none());
}

#[test]
fn record_standard_invoice_stores_empty_preimage() {
    let mut ledger = Ledger::temporary().unwrap();
    let addinvoice_raw = "{\"payment_addr\":\"addr-s\",\"r_hash\":\"9f9f\",\"payment_request\":\"lnbc1s\"}"
        .to_string();
    let payreq_raw = "{\"destination\":\"02aabb\"}".to_string();
    let addr = record_standard_invoice(
        &addinvoice_raw,
        &payreq_raw,
        &"02aabb".to_string(),
        &mut ledger,
    )
    .unwrap();
    assert_eq!(addr, "addr-s");
    let rec = ledger.get_invoice(&"9f9f".to_string()).unwrap().unwrap();
    assert_eq!(rec.preimage_x, "");
    assert_eq!(rec.r_hash, "9f9f");
    assert!(rec.is_own_invoice);
    // A standard invoice's secret lives in the daemon, so settlement
    // lookup must refuse it rather than hand back the empty string.
    let r = ledger.resolve_preimage_for_settlement(&"9f9f".to_string());
    assert!(matches!(r, Err(htlc_ledger::errors::SettlementError::EmptyPreimage)));
}
