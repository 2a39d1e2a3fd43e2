use htlc_ledger::errors::ParseError;
use htlc_ledger::jsonio::extract_field;
use htlc_ledger::parser::{
    channels_from_json, destination_from_payreq, funding_txid_from_response,
    hold_invoice_response_fields, peers_from_json, pending_channels_from_json,
    standard_invoice_response_fields,
};

#[test]
fn extract_field_reads_top_level_strings() {
    assert_eq!(
        extract_field("{\"a\":\"b\"}", "a").unwrap(),
        Some("b".to_string())
    );
    assert_eq!(extract_field("{\"a\":\"b\"}", "missing").unwrap(), None);
    assert_eq!(extract_field("{\"a\":7}", "a").unwrap(), None);
    assert!(matches!(
        extract_field("not json", "a"),
        Err(ParseError::Malformed)
    ));
}

#[test]
fn hold_invoice_fields_require_address_and_request() {
    let ok = hold_invoice_response_fields(
        "{\"payment_addr\":\"pa\",\"payment_request\":\"pr\"}",
    )
    .unwrap();
    assert_eq!(ok, ("pa".to_string(), "pr".to_string()));
    assert!(matches!(
        hold_invoice_response_fields("{\"payment_request\":\"pr\"}"),
        Err(ParseError::MissingField(f)) if f == "payment_addr"
    ));
    assert!(matches!(
        hold_invoice_response_fields("{\"payment_addr\":\"pa\"}"),
        Err(ParseError::MissingField(f)) if f == "payment_request"
    ));
    assert!(matches!(
        hold_invoice_response_fields("garbage"),
        Err(ParseError::Malformed)
    ));
}

#[test]
fn standard_invoice_fields_require_hash_too() {
    let ok = standard_invoice_response_fields(
        "{\"payment_addr\":\"pa\",\"r_hash\":\"beef\",\"payment_request\":\"pr\"}",
    )
    .unwrap();
    assert_eq!(ok, ("pa".to_string(), "beef".to_string(), "pr".to_string()));
    assert!(matches!(
        standard_invoice_response_fields("{\"payment_addr\":\"pa\",\"payment_request\":\"pr\"}"),
        Err(ParseError::MissingField(f)) if f == "r_hash"
    ));
}

#[test]
fn destination_falls_back_to_empty() {
    assert_eq!(
        destination_from_payreq("{\"destination\":\"02ab\"}").unwrap(),
        "02ab"
    );
    assert_eq!(destination_from_payreq("{}").unwrap(), "");
    assert!(matches!(
        destination_from_payreq("nope"),
        Err(ParseError::Malformed)
    ));
}

#[test]
fn funding_txid_prefers_direct_field() {
    assert_eq!(
        funding_txid_from_response("{\"funding_txid\":\"t1\"}"),
        Some("t1".to_string())
    );
    assert_eq!(
        funding_txid_from_response("{\"channel_point\":\"t2:0\"}"),
        Some("t2".to_string())
    );
    assert_eq!(
        funding_txid_from_response("{\"channel_point\":\"plain\"}"),
        Some("plain".to_string())
    );
    assert_eq!(funding_txid_from_response("{}"), None);
    assert_eq!(funding_txid_from_response("bad"), None);
}

#[test]
fn peers_collects_public_keys_in_order() {
    let raw = "{\"peers\":[{\"pub_key\":\"a\"},{\"other\":1},{\"pub_key\":\"b\"}]}";
    assert_eq!(
        peers_from_json(raw).unwrap(),
        vec!["a".to_string(), "b".to_string()]
    );
    assert_eq!(peers_from_json("{\"peers\":[]}").unwrap(), Vec::<String>::new());
    assert!(matches!(
        peers_from_json("{}"),
        Err(ParseError::MissingField(f)) if f == "peers"
    ));
}

#[test]
fn channels_read_fields_with_defaults() {
    let raw = "{\"channels\":[{\"chan_id\":\"1\",\"remote_pubkey\":\"rp\",\"capacity\":\"5\",\
               \"local_balance\":\"3\",\"remote_balance\":\"2\",\"active\":true},{}]}";
    let v = channels_from_json(raw).unwrap();
    assert_eq!(v.len(), 2);
    assert_eq!(v[0].channel_id, "1");
    assert_eq!(v[0].remote_pubkey, "rp");
    assert_eq!(v[0].capacity, "5");
    assert!(v[0].active);
    assert_eq!(v[1].channel_id, "");
    assert_eq!(v[1].capacity, "0");
    assert!(!v[1].active);
    assert!(matches!(
        channels_from_json("{}"),
        Err(ParseError::MissingField(f)) if f == "channels"
    ));
}

#[test]
fn pending_channels_carry_their_category_status() {
    let raw = "{\"pending_open_channels\":[{\"channel\":{\"remote_node_pub\":\"a\",\
               \"channel_point\":\"x:1\",\"capacity\":\"9\",\"local_balance\":\"4\",\
               \"remote_balance\":\"5\"}}],\
               \"waiting_close_channels\":[{\"channel\":{\"remote_node_pub\":\"b\"}}]}";
    let v = pending_channels_from_json(raw).unwrap();
    assert_eq!(v.len(), 2);
    assert_eq!(v[0].remote_node_pub, "a");
    assert_eq!(v[0].channel_point, "x:1");
    assert_eq!(v[0].capacity, "9");
    assert_eq!(v[0].status, "Opening");
    assert_eq!(v[1].remote_node_pub, "b");
    assert_eq!(v[1].capacity, "0");
    assert_eq!(v[1].status, "Waiting Close");
    assert!(matches!(
        pending_channels_from_json("oops"),
        Err(ParseError::Malformed)
    ));
}
