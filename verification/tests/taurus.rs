use taurus_api::config::Wallet;
use taurus_api::taurus::{select_wallet_address, Addresses, TaurusError};

fn entry(address: &str, label: &str) -> Addresses {
    Addresses {
        id: "1".to_string(),
        wallet_id: "w".to_string(),
        address_path: "m/0".to_string(),
        address: address.to_string(),
        label: label.to_string(),
        signature: "sig".to_string(),
    }
}

fn wallet(address: &str) -> Wallet {
    Wallet { name: "main".to_string(), address: address.to_string() }
}

#[test]
fn select_address_finds_match() {
    let list = Some(vec![entry("aaa", "first"), entry("bbb", "second")]);
    let found = select_wallet_address(&list, &wallet("bbb")).unwrap();
    assert_eq!(found.label, "second");
    assert_eq!(found.address, "bbb");
}

#[test]
fn select_address_takes_first_of_equal() {
    let list = Some(vec![entry("aaa", "first"), entry("aaa", "second")]);
    let found = select_wallet_address(&list, &wallet("aaa")).unwrap();
    assert_eq!(found.label, "first");
}

#[test]
fn select_address_no_match() {
    let list = Some(vec![entry("aaa", "first")]);
    let err = select_wallet_address(&list, &wallet("zzz")).unwrap_err();
    assert_eq!(err, TaurusError::NoMatchingAddresses);
    assert_eq!(err.message(), "no matching addresses");
}

#[test]
fn select_address_absent_listing() {
    let err = select_wallet_address(&None, &wallet("aaa")).unwrap_err();
    assert_eq!(err, TaurusError::NoMatchingAddresses);
}
