use pin_client::signature::compute_signature;
use sha2::Digest;

fn is_lower_hex(s: &str) -> bool {
    s.chars().all(|c| c.is_ascii_digit() || ('a'..='f').contains(&c))
}

#[test]
fn signature_is_the_same_on_every_call() {
    let first = compute_signature("c1", "1000", "s1");
    let second = compute_signature("c1", "1000", "s1");
    assert_eq!(first, second);
}

#[test]
fn signature_has_sixty_four_hex_characters() {
    for (c, t, s) in [("c1", "1000", "s1"), ("", "", ""), ("cliënt", "1700000000", "sécret✓")] {
        let sig = compute_signature(c, t, s);
        assert_eq!(sig.len(), 64);
        assert_eq!(sig.chars().count(), 64);
        assert!(is_lower_hex(&sig));
    }
}

#[test]
fn signature_of_known_inputs() {
    assert_eq!(
        compute_signature("c1", "1000", "s1"),
        "5e1a7a303f9bcbd86316e2fc7366c0106516b776a0fe3d32fa6f85621c3731af"
    );
    assert_eq!(
        compute_signature("test_client_123", "1700000000", "test_secret_abc"),
        "9faa61a94a291ea560abc972dbc18be3c36ac1448feadd2c5d2502f1321900a8"
    );
}

#[test]
fn signature_of_empty_inputs() {
    assert_eq!(
        compute_signature("", "", ""),
        "cd372fb85148700fa88095e3492d3f9f5beb43e555e5ff26d95f5a6adc36f8e6"
    );
}

#[test]
fn signature_of_text_beyond_ascii() {
    assert_eq!(
        compute_signature("cliënt", "1700000000", "sécret✓"),
        "3c8076f5971ea0981ba637fc21cc3487a6bb24a3e5908c6ac7e1da4a18da98e2"
    );
}

#[test]
fn signature_changes_with_each_argument() {
    let base = compute_signature("c1", "1000", "s1");
    let other_id = compute_signature("c2", "1000", "s1");
    let other_time = compute_signature("c1", "1001", "s1");
    let other_secret = compute_signature("c1", "1000", "s2");
    assert_eq!(other_id, "6f940ba20bbfae052e54c304e5a25143b9584ba7bd85edbc23434b8a9fc772e6");
    assert_eq!(other_time, "27b8048f0b03ce2f15d585ae92e676fdc7f9172a5cfebf641f3b864ca56a088b");
    assert_eq!(other_secret, "3f012e0de84acfbef5bd88d7689a6698b2611cf066b741b6da0f6d6f879d67fc");
    assert_ne!(base, other_id);
    assert_ne!(base, other_time);
    assert_ne!(base, other_secret);
    assert_ne!(other_id, other_time);
    assert_ne!(other_id, other_secret);
    assert_ne!(other_time, other_secret);
}

#[test]
fn signature_is_the_hash_chain() {
    for (c, t, s) in [("c1", "1000", "s1"), ("operator-7", "0", ""), ("", "42", "long secret ".repeat(40).as_str())] {
        let secret_hash = hex::encode(sha2::Sha256::digest(s.as_bytes()));
        assert_eq!(secret_hash.len(), 64);
        let mut input = String::from(c);
        input.push_str(t);
        input.push_str(&secret_hash);
        let expected = hex::encode(sha2::Sha256::digest(input.as_bytes()));
        assert_eq!(compute_signature(c, t, s), expected);
    }
}

#[test]
fn signature_does_not_tell_moved_boundaries_apart() {
    // Identity and timestamp are joined with nothing between them, so a
    // character may move from one to the other without changing the input.
    assert_eq!(compute_signature("c1", "1000", "s1"), compute_signature("c11", "000", "s1"));
}
