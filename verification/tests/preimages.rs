use htlc_ledger::hexstr::{hex_decode, hex_encode};
use htlc_ledger::preimage::{confirm_preimage, digest_hex, generate_preimage};

#[test]
fn generated_pair_reconciles() {
    let (preimage_hex, hash_hex) = generate_preimage();
    assert_eq!(preimage_hex.len(), 64);
    assert_eq!(hash_hex.len(), 64);
    assert!(confirm_preimage(&preimage_hex, &hash_hex));
}

#[test]
fn tampered_hash_is_rejected() {
    let (preimage_hex, hash_hex) = generate_preimage();
    let mut chars: Vec<char> = hash_hex.chars().collect();
    chars[0] = if chars[0] == '0' { '1' } else { '0' };
    let tampered: String = chars.into_iter().collect();
    assert!(!confirm_preimage(&preimage_hex, &tampered));
}

#[test]
fn tampered_preimage_is_rejected() {
    let (preimage_hex, hash_hex) = generate_preimage();
    let mut chars: Vec<char> = preimage_hex.chars().collect();
    chars[0] = if chars[0] == '0' { '1' } else { '0' };
    let tampered: String = chars.into_iter().collect();
    assert!(!confirm_preimage(&tampered, &hash_hex));
}

#[test]
fn digest_matches_known_vector() {
    let data = vec![b'a', b'b', b'c'];
    assert_eq!(
        digest_hex(&data),
        "ba7816bf8f01cfea414140de5dae2223b00361a396177a9cb410ff61f20015ad"
    );
}

#[test]
fn non_hex_preimage_is_rejected() {
    assert!(!confirm_preimage(&"zz".to_string(), &"00".to_string()));
    assert!(!confirm_preimage(&"abc".to_string(), &"00".to_string()));
}

#[test]
fn hex_encode_decode_round_trip() {
    let bytes = vec![0u8, 255u8, 16u8, 171u8];
    let text = hex_encode(&bytes);
    assert_eq!(text, "00ff10ab");
    let back = hex_decode(&text).unwrap();
    assert_eq!(back, bytes);
    assert_eq!(hex_decode("00FF10AB").unwrap(), bytes);
    assert!(hex_decode("0").is_none());
    assert!(hex_decode("0g").is_none());
}
