use qraiop_crypto::{info, QraiopError, SecurityLevel, ALGORITHMS, VERSION};

#[test]
fn test_library_info() {
    let info = info();
    assert_eq!(info.version, VERSION);
    assert!(info.nist_approved);
    assert!(info.quantum_resistant);
    assert!(!info.supported_algorithms.is_empty());
}

#[test]
fn info_lists_every_algorithm_in_order() {
    let info = info();
    assert_eq!(info.supported_algorithms.len(), 9);
    for (listed, known) in info.supported_algorithms.iter().zip(ALGORITHMS.iter()) {
        assert_eq!(listed, known);
    }
    assert_eq!(info.supported_algorithms[0], "ML-KEM-512");
    assert_eq!(info.supported_algorithms[8], "SLH-DSA-256s");
}

#[test]
fn security_levels_render_and_number() {
    assert_eq!(SecurityLevel::Level1.to_string(), "Level-1");
    assert_eq!(SecurityLevel::Level3.to_string(), "Level-3");
    assert_eq!(SecurityLevel::Level5.to_string(), "Level-5");
    assert_eq!(SecurityLevel::Level1.category(), 1);
    assert_eq!(SecurityLevel::Level3.category(), 3);
    assert_eq!(SecurityLevel::Level5.category(), 5);
}

#[test]
fn every_error_kind_renders_its_phrase_and_context() {
    assert_eq!(
        QraiopError::CryptoError("rng".to_string()).to_string(),
        "Cryptographic operation failed: rng"
    );
    assert_eq!(
        QraiopError::InvalidKey("short".to_string()).to_string(),
        "Invalid key format: short"
    );
    assert_eq!(
        QraiopError::UnsupportedAlgorithm("RSA".to_string()).to_string(),
        "Algorithm not supported: RSA"
    );
    assert_eq!(
        QraiopError::SignatureVerificationFailed.to_string(),
        "Signature verification failed"
    );
    assert_eq!(
        QraiopError::EncapsulationFailed("ct".to_string()).to_string(),
        "Key encapsulation failed: ct"
    );
    assert_eq!(
        QraiopError::SerializationError("odd".to_string()).to_string(),
        "Serialization error: odd"
    );
}
