use tollbooth::crypto::{compute_hmac, derive_bearer_hash};

#[test]
fn hmac_of_known_vector() {
    assert_eq!(
        compute_hmac("key", "The quick brown fox jumps over the lazy dog"),
        "f7bc83f430538424b13298e6aa6fb143ef4d59a14946175997479dbc2d1a3cd8"
    );
}

#[test]
fn bearer_hash_depends_on_secret_and_bearer() {
    let a = derive_bearer_hash(b"key", "The quick brown fox jumps over the lazy dog");
    assert_eq!(a, "f7bc83f430538424b13298e6aa6fb143ef4d59a14946175997479dbc2d1a3cd8");
    assert_ne!(derive_bearer_hash(b"other", "bearer"), derive_bearer_hash(b"key", "bearer"));
    assert_eq!(derive_bearer_hash(&[7u8; 64], "b").len(), 64);
}
