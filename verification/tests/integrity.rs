use espresso::error::BuildError;
use espresso::integrity::{ensure_integrity_sha512, get_sha512_of_bytes, hex_digests_match};

const ABC_SHA512: &str = "ddaf35a193617abacc417349ae20413112e6fa4e89a97ea20a9eeee64b55d39a2192992a274fc1a836ba3c23a3feebbd454d4423643ce80e2a9ac94fa54ca49f";

const EMPTY_SHA512: &str = "cf83e1357eefb8bdf1542850d66d8007d620e4050b5715dc83f4a921d36ce9ce47d0d13c5d85f2b0ff8318d2877eec2f63b931bd47417a81a538327af927da3e";

#[test]
fn sha512_of_known_bytes() {
    let data = b"abc".to_vec();
    assert_eq!(get_sha512_of_bytes(&data), ABC_SHA512);
}

#[test]
fn sha512_hex_is_always_128_characters() {
    assert_eq!(get_sha512_of_bytes(&Vec::new()).len(), 128);
    assert_eq!(get_sha512_of_bytes(&b"abc".to_vec()).len(), 128);
}

#[test]
fn sha512_of_empty_input() {
    let data: Vec<u8> = Vec::new();
    assert_eq!(get_sha512_of_bytes(&data), EMPTY_SHA512);
}

#[test]
fn integrity_accepts_matching_digest() {
    let data = b"abc".to_vec();
    assert!(ensure_integrity_sha512(&data, &ABC_SHA512.to_string()).is_ok());
}

#[test]
fn integrity_is_case_insensitive() {
    let data = b"abc".to_vec();
    let upper = ABC_SHA512.to_uppercase();
    assert!(ensure_integrity_sha512(&data, &upper).is_ok());
}

#[test]
fn integrity_rejects_single_corrupted_byte() {
    let data = b"abd".to_vec();
    let r = ensure_integrity_sha512(&data, &ABC_SHA512.to_string());
    match r {
        Err(BuildError::Integrity { expected, actual }) => {
            assert_eq!(expected, ABC_SHA512);
            assert_ne!(actual, ABC_SHA512);
        }
        _ => panic!("expected an integrity error"),
    }
}

#[test]
fn integrity_rejects_wrong_digest() {
    let data = b"abc".to_vec();
    let r = ensure_integrity_sha512(&data, &EMPTY_SHA512.to_string());
    assert!(r.is_err());
}

#[test]
fn digest_comparison_ignores_ascii_case() {
    assert!(hex_digests_match(&"AbCdEf09".to_string(), &"aBcDeF09".to_string()));
    assert!(!hex_digests_match(&"abcdef01".to_string(), &"abcdef02".to_string()));
    assert!(!hex_digests_match(&"abc".to_string(), &"abcd".to_string()));
}
