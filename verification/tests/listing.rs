use htlc_ledger::errors::{InvoiceError, ParseError};
use htlc_ledger::flows::invoice_listings;
use htlc_ledger::records::InvoiceData;
use htlc_ledger::store::Ledger;

fn listing_json(r_hash: &str, creation_date: &str) -> String {
    let mut s = String::from("{\"invoices\":[{\"memo\":\"m1\",\"r_hash\":\"");
    s.push_str(r_hash);
    s.push_str("\",\"value\":\"21\",\"state\":\"OPEN\",\"creation_date\":\"");
    s.push_str(creation_date);
    s.push_str("\",\"payment_request\":\"lnbc1\"}]}");
    s
}

#[test]
fn listing_formats_timestamps_and_reads_ownership() {
    let mut ledger = Ledger::temporary().unwrap();
    ledger
        .put_invoice(&InvoiceData {
            preimage_x: "aa".to_string(),
            preimage_h: "beef".to_string(),
            payment_address: "pa".to_string(),
            r_hash: "beef".to_string(),
            is_own_invoice: true,
        })
        .unwrap();
    let raw = listing_json("beef", "1700000000");
    let rows = invoice_listings(&raw, &ledger).unwrap();
    assert_eq!(rows.len(), 1);
    assert_eq!(rows[0].memo, "m1");
    assert_eq!(rows[0].r_hash, "beef");
    assert_eq!(rows[0].value, "21");
    assert_eq!(rows[0].state, "OPEN");
    assert_eq!(rows[0].creation_date, "2023-11-14 22:13:20 UTC");
    assert!(rows[0].is_own_invoice);
}

#[test]
fn listing_marks_unknown_hashes_as_foreign() {
    let ledger = Ledger::temporary().unwrap();
    let raw = listing_json("feed", "1700000000");
    let rows = invoice_listings(&raw, &ledger).unwrap();
    assert!(!rows[0].is_own_invoice);
}

#[test]
fn listing_keeps_unparsable_dates_verbatim() {
    let ledger = Ledger::temporary().unwrap();
    let raw = listing_json("feed", "not-a-timestamp");
    let rows = invoice_listings(&raw, &ledger).unwrap();
    assert_eq!(rows[0].creation_date, "not-a-timestamp");
}

#[test]
fn listing_requires_every_field() {
    let ledger = Ledger::temporary().unwrap();
    let raw = "{\"invoices\":[{\"memo\":\"m\"}]}";
    assert!(matches!(
        invoice_listings(raw, &ledger),
        Err(InvoiceError::Parse(ParseError::MissingField(_)))
    ));
}

#[test]
fn listing_rejects_malformed_documents() {
    let ledger = Ledger::temporary().unwrap();
    assert!(matches!(
        invoice_listings("...", &ledger),
        Err(InvoiceError::Parse(ParseError::Malformed))
    ));
    assert!(matches!(
        invoice_listings("{}", &ledger),
        Err(InvoiceError::Parse(ParseError::MissingField(f))) if f == "invoices"
    ));
}
