use ring_ring::storage::keys::{KeyFile, APP_DIR_NAME, KEYS_FILE_NAME};

#[test]
fn key_file_round_trip() {
    let private = "a".repeat(64);
    let public = "b".repeat(64);
    let file = KeyFile::new(&private, &public);
    assert_eq!(file.private_key_hex, "a".repeat(64));
    assert_eq!(file.into_pair(), ("a".repeat(64), "b".repeat(64)));
}

#[test]
fn key_file_location() {
    assert_eq!(APP_DIR_NAME, "ring-ring");
    assert_eq!(KEYS_FILE_NAME, "keys.json");
}
