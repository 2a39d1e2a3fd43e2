use htlc_ledger::b64::unlock_request_body;
use htlc_ledger::codec::{decode_record, encode_record};
use htlc_ledger::config::{
    connection_from_config_text, default_litd_config, lit_paths, macaroon_candidates,
    select_first_existing,
};
use htlc_ledger::numtext::{parse_i64, parse_u64, u64_to_dec};
use htlc_ledger::records::InvoiceData;
use htlc_ledger::strutil::{prefix_before, split_at_first, str_contains, str_starts_with};

#[test]
fn decimal_rendering_and_parsing() {
    assert_eq!(u64_to_dec(0), "0");
    assert_eq!(u64_to_dec(1234), "1234");
    assert_eq!(u64_to_dec(u64::MAX), "18446744073709551615");
    assert_eq!(parse_u64("0"), Some(0));
    assert_eq!(parse_u64("007"), Some(7));
    assert_eq!(parse_u64("18446744073709551615"), Some(u64::MAX));
    assert_eq!(parse_u64("18446744073709551616"), None);
    assert_eq!(parse_u64(""), None);
    assert_eq!(parse_u64("4x2"), None);
    assert_eq!(parse_u64("-1"), None);
}

#[test]
fn signed_parsing_covers_the_whole_range() {
    assert_eq!(parse_i64("-5"), Some(-5));
    assert_eq!(parse_i64("+5"), Some(5));
    assert_eq!(parse_i64("9223372036854775807"), Some(i64::MAX));
    assert_eq!(parse_i64("-9223372036854775808"), Some(i64::MIN));
    assert_eq!(parse_i64("9223372036854775808"), None);
    assert_eq!(parse_i64("-9223372036854775809"), None);
    assert_eq!(parse_i64("-"), None);
    assert_eq!(parse_i64(""), None);
}

#[test]
fn record_codec_round_trips() {
    let rec = InvoiceData {
        preimage_x: "aabb".to_string(),
        preimage_h: "ccdd".to_string(),
        payment_address: "addr with spaces: and colons".to_string(),
        r_hash: "ccdd".to_string(),
        is_own_invoice: true,
    };
    let text = encode_record(&rec);
    let back = decode_record(&text).unwrap();
    assert!(back == rec);
}

#[test]
fn record_codec_round_trips_empty_fields() {
    let rec = InvoiceData {
        preimage_x: String::new(),
        preimage_h: "ee".to_string(),
        payment_address: String::new(),
        r_hash: "ee".to_string(),
        is_own_invoice: false,
    };
    let text = encode_record(&rec);
    let back = decode_record(&text).unwrap();
    assert!(back == rec);
}

#[test]
fn record_decoder_rejects_damaged_text() {
    let rec = InvoiceData {
        preimage_x: "aa".to_string(),
        preimage_h: "bb".to_string(),
        payment_address: "pa".to_string(),
        r_hash: "bb".to_string(),
        is_own_invoice: false,
    };
    let text = encode_record(&rec);
    assert!(decode_record("").is_none());
    assert!(decode_record("garbage").is_none());
    assert!(decode_record(&text[..text.len() - 1]).is_none());
    let mut extended = text.clone();
    extended.push('0');
    assert!(decode_record(&extended).is_none());
}

#[test]
fn text_helpers_behave() {
    assert!(str_contains("the wallet locked here", "wallet locked"));
    assert!(!str_contains("short", "longer needle"));
    assert!(str_contains("anything", ""));
    assert!(str_starts_with("rpclisten=0.0.0.0:80", "rpclisten="));
    assert!(!str_starts_with("listen=", "rpclisten="));
    assert_eq!(
        split_at_first("host:80:81", ':'),
        Some(("host".to_string(), "80:81".to_string()))
    );
    assert_eq!(split_at_first("nocolon", ':'), None);
    assert_eq!(prefix_before("txid:0", ':'), "txid");
    assert_eq!(prefix_before("plain", ':'), "plain");
}

#[test]
fn configuration_takes_the_last_listen_line() {
    let content = "uipassword=pw\nrpclisten=0.0.0.0:8443\nrpclisten=127.0.0.1:10019\n";
    let conn = connection_from_config_text(content);
    assert_eq!(conn.host, "127.0.0.1");
    assert_eq!(conn.port, 10019);
    assert_eq!(conn.cert_path, "");
}

#[test]
fn configuration_defaults_without_listen_lines() {
    let conn = connection_from_config_text("lnd-mode=integrated\n");
    assert_eq!(conn.host, "127.0.0.1");
    assert_eq!(conn.port, 10009);
}

#[test]
fn configuration_skips_malformed_listen_lines() {
    let content = "rpclisten=0.0.0.0:8443\r\nrpclisten=bad\nrpclisten=0.0.0.0:99999\n";
    let conn = connection_from_config_text(content);
    assert_eq!(conn.host, "0.0.0.0");
    assert_eq!(conn.port, 8443);
}

#[test]
fn unlock_body_encodes_the_password() {
    assert_eq!(
        unlock_request_body("password"),
        "{\"wallet_password\":\"cGFzc3dvcmQ=\"}"
    );
    assert_eq!(unlock_request_body(""), "{\"wallet_password\":\"\"}");
}

#[test]
fn lit_paths_follow_the_home_directory() {
    let (lit_dir, cert, conf) = lit_paths("/home/u");
    assert_eq!(lit_dir, "/home/u/AppData/Local/Lit");
    assert_eq!(cert, "/home/u/AppData/Local/Lit/tls.cert");
    assert_eq!(conf, "/home/u/AppData/Local/Lit/lit.conf");
}

#[test]
fn macaroon_candidates_are_ordered_most_specific_first() {
    let c = macaroon_candidates("/lit");
    assert_eq!(
        c,
        vec![
            "/lit/testnet/lit.macaroon".to_string(),
            "/lit/testnet/admin.macaroon".to_string(),
            "/lit/testnet/readonly.macaroon".to_string(),
            "/lit/testnet/data/chain/bitcoin/testnet/admin.macaroon".to_string(),
        ]
    );
}

#[test]
fn first_existing_candidate_wins() {
    let dflt = "default".to_string();
    let none: Vec<(String, bool)> = vec![
        ("a".to_string(), false),
        ("b".to_string(), false),
    ];
    assert_eq!(select_first_existing(&none, &dflt), "default");
    let second = vec![
        ("a".to_string(), false),
        ("b".to_string(), true),
        ("c".to_string(), true),
    ];
    assert_eq!(select_first_existing(&second, &dflt), "b");
    let empty: Vec<(String, bool)> = Vec::new();
    assert_eq!(select_first_existing(&empty, &dflt), "default");
}

#[test]
fn default_configuration_names_the_integrated_testnet_node() {
    let c = default_litd_config();
    assert!(c.starts_with("httpslisten=0.0.0.0:8443\n"));
    assert!(c.contains("lnd-mode=integrated\n"));
    assert!(c.contains("lnd.bitcoin.testnet=1\n"));
    assert!(c.ends_with("lnd.protocol.zero-conf=true\n"));
}
