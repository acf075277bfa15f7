use demo_oracles::key_counter::{generate_key_pair, sign_message, verify_signature, KeyCounter};

#[test]
fn test_signature_verification() {
    let (private_key, public_key) = generate_key_pair();
    let message = "Hello, World!";

    // Sign the message
    let signature = sign_message(&private_key, message).expect("signing failed");

    // Verify the signature
    assert!(verify_signature(&public_key, message, &signature));
}

#[test]
fn test_invalid_signature_verification() {
    let (_, public_key) = generate_key_pair();
    let message = "Hello, World!";
    let invalid_signature = vec![0; 64]; // Invalid signature with all zeros

    // Verify the invalid signature
    assert!(!verify_signature(&public_key, message, &invalid_signature));
}

#[test]
fn signature_holds_for_every_generated_pair() {
    for round in 0..8 {
        let (private_key, public_key) = generate_key_pair();
        let message = format!("average {}", round);
        let signature = sign_message(&private_key, &message).expect("signing failed");
        assert!(verify_signature(&public_key, &message, &signature));
    }
}

#[test]
fn signature_of_empty_message_verifies() {
    let (private_key, public_key) = generate_key_pair();
    let signature = sign_message(&private_key, "").expect("signing failed");
    assert!(verify_signature(&public_key, "", &signature));
}

#[test]
fn signature_does_not_hold_for_another_message() {
    let (private_key, public_key) = generate_key_pair();
    let signature = sign_message(&private_key, "100").expect("signing failed");
    assert!(!verify_signature(&public_key, "9999", &signature));
    assert!(!verify_signature(&public_key, "100 ", &signature));
}

#[test]
fn signature_does_not_hold_under_another_key() {
    let (private_key, _) = generate_key_pair();
    let (_, stranger) = generate_key_pair();
    let signature = sign_message(&private_key, "42.5").expect("signing failed");
    assert!(!verify_signature(&stranger, "42.5", &signature));
}

#[test]
fn truncated_signature_is_rejected() {
    let (private_key, public_key) = generate_key_pair();
    let signature = sign_message(&private_key, "42.5").expect("signing failed");
    for keep in 0..signature.len() {
        assert!(!verify_signature(&public_key, "42.5", &signature[..keep]));
    }
}

#[test]
fn malformed_signatures_are_rejected() {
    let (private_key, public_key) = generate_key_pair();
    let signature = sign_message(&private_key, "42.5").expect("signing failed");

    assert!(!verify_signature(&public_key, "42.5", &[]));
    assert!(!verify_signature(&public_key, "42.5", &[0x30]));
    assert!(!verify_signature(&public_key, "42.5", &[0xff; 70]));

    let mut extended = signature.clone();
    extended.push(0);
    assert!(!verify_signature(&public_key, "42.5", &extended));

    let mut retagged = signature.clone();
    retagged[0] = 0x31;
    assert!(!verify_signature(&public_key, "42.5", &retagged));
}

#[test]
fn signature_is_der_and_repeatable() {
    let (private_key, _) = generate_key_pair();
    let first = sign_message(&private_key, "200").expect("signing failed");
    let second = sign_message(&private_key, "200").expect("signing failed");
    assert_eq!(first, second);
    assert_eq!(first[0], 0x30);
    assert_eq!(first[1] as usize, first.len() - 2);
    assert_ne!(first, b"200".to_vec());
}

#[test]
fn verifying_key_is_a_compressed_point() {
    let (_, public_key) = generate_key_pair();
    let bytes = public_key.to_sec1_bytes();
    assert_eq!(bytes.len(), 33);
    assert!(bytes[0] == 0x02 || bytes[0] == 0x03);
}

#[test]
fn key_pairs_are_fresh() {
    let (_, first) = generate_key_pair();
    let (_, second) = generate_key_pair();
    assert_ne!(first, second);
}

#[test]
fn registry_starts_empty() {
    let registry = KeyCounter::new();
    assert_eq!(registry.len(), 0);
    assert!(!registry.contains("kraken"));
    assert!(registry.get("kraken").is_none());
}

#[test]
fn registry_finds_what_was_inserted() {
    let mut registry = KeyCounter::new();
    let (_, kraken) = generate_key_pair();
    let (_, binance) = generate_key_pair();
    registry.insert("kraken".to_string(), kraken.clone());
    registry.insert("binance".to_string(), binance.clone());

    assert_eq!(registry.len(), 2);
    assert!(registry.contains("kraken"));
    assert_eq!(registry.lookup("kraken"), &kraken);
    assert_eq!(registry.lookup("binance"), &binance);
    assert_eq!(registry.get("binance"), Some(&binance));
    assert!(registry.get("bitstamp").is_none());
}

#[test]
fn registry_keeps_the_last_key_of_a_name() {
    let mut registry = KeyCounter::new();
    let (_, first) = generate_key_pair();
    let (second_secret, second) = generate_key_pair();
    registry.insert("kraken".to_string(), first.clone());
    registry.insert("kraken".to_string(), second.clone());

    assert_eq!(registry.len(), 1);
    assert_eq!(registry.lookup("kraken"), &second);

    let signature = sign_message(&second_secret, "100").expect("signing failed");
    assert!(verify_signature(registry.lookup("kraken"), "100", &signature));
}
