use mempoolcp::txid::Txid;

#[test]
fn takes_sixty_four_lowercase_hex_characters() {
    let text = "00112233445566778899aabbccddeeff00112233445566778899aabbccddeeff";
    let id = Txid::from_hex(text).expect("an identifier");
    assert_eq!(id.as_str(), text);
    assert_eq!(id.clone(), id);
}

#[test]
fn refuses_other_lengths() {
    assert_eq!(Txid::from_hex(""), None);
    assert_eq!(Txid::from_hex(&"a".repeat(63)), None);
    assert_eq!(Txid::from_hex(&"a".repeat(65)), None);
}

#[test]
fn refuses_other_characters() {
    assert_eq!(Txid::from_hex(&"A".repeat(64)), None);
    assert_eq!(Txid::from_hex(&"g".repeat(64)), None);
    assert_eq!(Txid::from_hex(&format!("{}/", "a".repeat(63))), None);
    assert_eq!(Txid::from_hex(&format!("{}:", "a".repeat(63))), None);
    assert_eq!(Txid::from_hex(&format!("{}`", "a".repeat(63))), None);
    assert_eq!(Txid::from_hex(&"é".repeat(32)), None);
    assert_eq!(Txid::from_hex(&"é".repeat(64)), None);
}

#[test]
fn takes_every_hex_digit() {
    let text = "0123456789abcdef".repeat(4);
    assert_eq!(Txid::from_hex(&text).map(|id| id.as_str().to_string()), Some(text));
}
