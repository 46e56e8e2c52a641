//! Numbers, addresses, hashes and keyed collections.
use wallet::address::{hex_encode, hex_encode_prefixed, keccak256, Address, B256};
use wallet::governance::ascending::{is_ascending, sorted, sorted_unique, toggle};
use wallet::keyed::{KeyMap, KeySet};
use wallet::text::{contains_text, decimal_u64, to_ascii_lowercase, trim};
use wallet::u256::U256;

fn n(value: u64) -> U256 {
    U256::from_u64(value)
}

#[test]
fn numbers_are_checked_at_their_limits() {
    assert_eq!(n(2).checked_add(n(3)), Some(n(5)));
    assert_eq!(U256::max().checked_add(U256::one()), None);
    assert_eq!(U256::max().wrapping_add(n(2)), n(1));
    assert_eq!(n(5).checked_sub(n(3)), Some(n(2)));
    assert_eq!(n(3).checked_sub(n(5)), None);
    assert_eq!(n(6).checked_mul(n(7)), Some(n(42)));
    assert_eq!(U256::max().checked_mul(n(2)), None);
    assert_eq!(n(43).checked_div(n(7)), Some(n(6)));
    assert_eq!(n(43).checked_div(U256::zero()), None);
    assert_eq!(U256::max().saturating_add(n(1)), U256::max());
    assert_eq!(n(1).saturating_sub(n(2)), U256::zero());
    assert!(U256::from_u128(u64::MAX as u128).less_than(U256::from_u128(1u128 << 64)));
    assert_eq!(U256::from_u128(1u128 << 64).to_u64(), None);
    assert_eq!(n(7).to_u64(), Some(7));
}

#[test]
fn numbers_are_written_in_decimal() {
    assert_eq!(U256::zero().to_decimal(), "0");
    assert_eq!(U256::from_u128(1u128 << 100).to_decimal(), (1u128 << 100).to_string());
    assert_eq!(
        U256::max().to_decimal(),
        "115792089237316195423570985008687907853269984665640564039457584007913129639935"
    );
    assert_eq!(decimal_u64(u64::MAX), u64::MAX.to_string());
}

#[test]
fn addresses_are_written_with_a_checksum() {
    let text = "0x5aAeb6053F3E94C9b9A09f33669435E7Ef1BeAed";
    let address = Address::parse(text).expect("an address");
    assert_eq!(address.to_checksum(), text);
    assert_eq!(address.to_lower_hex(), text.to_ascii_lowercase());
    assert_eq!(Address::parse(&text[2..]), Some(address));
    assert_eq!(Address::parse(&format!("0X{}", &text[2..])), Some(address));
    assert_eq!(Address::parse("0x5aAe"), None);
    assert_eq!(Address::parse("alice.eth"), None);
    assert!(Address::zero().less_than(address));
    assert!(!address.less_than(address));
}

#[test]
fn the_capitals_of_a_checksum_come_from_the_hash_of_the_digits() {
    for byte in [0x00, 0x1b, 0xab, 0xde, 0xff] {
        let address = Address::from_bytes([byte; 20]);
        let digits = address.to_lower_hex()[2..].to_owned();
        let hash = keccak256(digits.as_bytes()).to_text()[2..].to_owned();
        let capitals: String = digits
            .chars()
            .zip(hash.chars())
            .map(|(digit, at)| if at >= '8' { digit.to_ascii_uppercase() } else { digit })
            .collect();
        assert_eq!(address.to_checksum(), format!("0x{capitals}"));
        assert_eq!(Address::parse(&address.to_checksum()), Some(address));
    }
}

#[test]
fn hashes_are_read_and_written() {
    let empty = "0xc5d2460186f7233c927e7db2dcc703c0e500b653ca82273b7bfad8045d85a470";
    let hash = keccak256(&[]);
    assert_eq!(hash.to_text(), empty);
    assert_eq!(B256::parse(empty), Some(hash));
    assert_eq!(B256::parse("0x12"), None);
    assert_eq!(hex_encode(&[0, 0xff]), "00ff");
    assert_eq!(hex_encode_prefixed(&[0, 0xff]), "0x00ff");
}

#[test]
fn texts_are_trimmed_lowered_and_searched() {
    assert_eq!(trim(" \t a b\n"), "a b");
    assert_eq!(to_ascii_lowercase("AbÉ"), "abÉ");
    assert!(contains_text("governance", "vern"));
    assert!(contains_text("governance", ""));
    assert!(!contains_text("governance", "Gov"));
}

#[test]
fn keys_are_held_once() {
    let mut map: KeyMap<String, u8> = KeyMap::new();
    map.insert("a".to_owned(), 1);
    map.insert("b".to_owned(), 2);
    map.insert("a".to_owned(), 3);
    assert_eq!(map.len(), 2);
    assert_eq!(map.get(&"a".to_owned()), Some(&3));
    map.remove(&"a".to_owned());
    assert!(!map.contains_key(&"a".to_owned()));
    let mut set: KeySet<String> = KeySet::new();
    set.insert("a".to_owned());
    set.insert("a".to_owned());
    assert_eq!(set.len(), 1);
    set.clear();
    assert!(!set.contains(&"a".to_owned()));
}

#[test]
fn selections_stay_sorted() {
    let [one, two, three] = [1, 2, 3].map(|byte| Address::from_bytes([byte; 20]));
    let mut tokens = sorted_unique(&vec![three, one, three]);
    assert_eq!(tokens, vec![one, three]);
    toggle(&mut tokens, two, true);
    assert_eq!(tokens, vec![one, two, three]);
    toggle(&mut tokens, two, false);
    assert_eq!(tokens, vec![one, three]);
    assert!(is_ascending(&tokens));
    assert!(!is_ascending(&vec![one, one]));
    assert_eq!(sorted(&vec![two, one, two]), vec![one, two, two]);
}
