use fastfile::stamp::{create_token, iso_at, sha256_hex};

#[test]
fn iso_at_epoch() {
    assert_eq!(iso_at(0), "1970-01-01T00:00:00Z");
    assert_eq!(iso_at(1_700_000_000), "2023-11-14T22:13:20Z");
    assert_eq!(iso_at(253_402_300_799), "9999-12-31T23:59:59Z");
}

#[test]
fn last_second_can_be_written() {
    assert_eq!(iso_at(8_210_266_876_799), "+262142-12-31T23:59:59Z");
}

#[test]
fn token_shape() {
    let a = create_token();
    let b = create_token();
    assert_eq!(a.len(), 48);
    assert!(a.chars().all(|c| c.is_ascii_alphanumeric()));
    assert_ne!(a, b);
}

#[test]
fn checksum_of_abc() {
    assert_eq!(
        sha256_hex(b"abc"),
        "ba7816bf8f01cfea414140de5dae2223b00361a396177a9cb410ff61f20015ad"
    );
}
