use cardboard::tripcode::{derive_tripcode, TRIPCODE_LEN};
use sha2::{Digest, Sha256};

fn reference(ip: &str, daily: &[u8], board: &[u8]) -> String {
    let mut hasher = Sha256::new();
    hasher.update(ip.as_bytes());
    hasher.update(daily);
    hasher.update(board);
    let result = hasher.finalize();
    hex::encode(&result[..8])
}

#[test]
fn tripcode_of_known_digest() {
    // SHA-256("abc") = ba7816bf8f01cfea414140de5dae2223b00361a396177a9cb410ff61f20015ad
    assert_eq!(derive_tripcode("abc", &[], &[]), "ba7816bf8f01cfea");
    // the same bytes split over the three parts give the same tripcode
    assert_eq!(derive_tripcode("a", b"b", b"c"), "ba7816bf8f01cfea");
}

#[test]
fn tripcode_matches_incremental_hashing() {
    let daily = [7u8; 16];
    let board = [42u8; 16];
    for ip in ["127.0.0.1", "10.0.0.254", "::1", "2001:db8::8a2e:370:7334"] {
        assert_eq!(derive_tripcode(ip, &daily, &board), reference(ip, &daily, &board));
    }
}

#[test]
fn tripcode_is_sixteen_lowercase_hex_digits() {
    let code = derive_tripcode("192.168.1.20", &[1, 2, 3], &[9; 16]);
    assert_eq!(code.len(), TRIPCODE_LEN);
    assert!(code.chars().all(|c| c.is_ascii_digit() || ('a'..='f').contains(&c)));
}

#[test]
fn tripcode_depends_on_each_salt() {
    let a = derive_tripcode("10.1.1.1", &[1; 16], &[2; 16]);
    let b = derive_tripcode("10.1.1.1", &[3; 16], &[2; 16]);
    let c = derive_tripcode("10.1.1.1", &[1; 16], &[4; 16]);
    let d = derive_tripcode("10.1.1.2", &[1; 16], &[2; 16]);
    assert_ne!(a, b);
    assert_ne!(a, c);
    assert_ne!(a, d);
    assert_eq!(a, derive_tripcode("10.1.1.1", &[1; 16], &[2; 16]));
}
