use ring_ring::crypto::keypair::{generate_keypair, keypair_from_secret};

#[test]
fn test_generate_keypair() {
    let (priv_hex, pub_hex) = generate_keypair();
    assert_eq!(priv_hex.len(), 64);
    assert_eq!(pub_hex.len(), 64);
    assert_ne!(priv_hex, pub_hex);
}

fn from_hex(s: &str) -> [u8; 32] {
    let mut out = [0u8; 32];
    for i in 0..32 {
        out[i] = u8::from_str_radix(&s[2 * i..2 * i + 2], 16).unwrap();
    }
    out
}

#[test]
fn keypair_from_secret_matches_rfc8032_vector() {
    // First test vector of RFC 8032, section 7.1.
    let secret_hex = "9d61b19deffd5a60ba844af492ec2cc44449c5697b326919703bac031cae7f60";
    let public_hex = "d75a980182b10ab7d54bfed3c964073a0ee172f3daa62325af021a68f707511a";
    let (priv_hex, pub_hex) = keypair_from_secret(&from_hex(secret_hex));
    assert_eq!(priv_hex, secret_hex);
    assert_eq!(pub_hex, public_hex);
}

#[test]
fn keypair_hex_is_lowercase_high_nibble_first() {
    let mut secret = [0u8; 32];
    secret[0] = 0xAB;
    secret[1] = 0x0F;
    secret[31] = 0xF0;
    let (priv_hex, pub_hex) = keypair_from_secret(&secret);
    assert!(priv_hex.starts_with("ab0f"));
    assert!(priv_hex.ends_with("f0"));
    assert!(priv_hex.chars().all(|c| c.is_ascii_digit() || ('a'..='f').contains(&c)));
    assert!(pub_hex.chars().all(|c| c.is_ascii_digit() || ('a'..='f').contains(&c)));
}

#[test]
fn keypair_from_secret_is_deterministic() {
    let secret = [7u8; 32];
    assert_eq!(keypair_from_secret(&secret), keypair_from_secret(&secret));
}

#[test]
fn generated_keypairs_differ() {
    assert_ne!(generate_keypair().0, generate_keypair().0);
}
