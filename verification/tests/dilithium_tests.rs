use pqcrypto_dilithium::dilithium2;
use pqcrypto_traits::sign::{DetachedSignature, PublicKey, SecretKey};
use qraiop_crypto::pqc::{benchmark_signature, Artifact, Secret, CANONICAL_MESSAGE};
use qraiop_crypto::{DigitalSignature, QraiopError, SecurityLevel};

#[derive(Clone)]
struct Open(Vec<u8>);

impl Artifact for Open {
    fn as_bytes(&self) -> &[u8] {
        &self.0
    }
}

#[derive(Clone)]
struct Sealed(Vec<u8>);

impl Artifact for Sealed {
    fn as_bytes(&self) -> &[u8] {
        &self.0
    }
}

impl Secret for Sealed {
    fn zeroize(&mut self) {
        for byte in self.0.iter_mut() {
            *byte = 0;
        }
        self.0.clear();
    }
}

/// ML-DSA-44 behind the library's interface.
struct MlDsa44;

impl DigitalSignature for MlDsa44 {
    type PublicKey = Open;
    type SecretKey = Sealed;
    type Signature = Open;

    fn keypair() -> Result<(Open, Sealed), QraiopError> {
        let (public_key, secret_key) = dilithium2::keypair();
        Ok((Open(public_key.as_bytes().to_vec()), Sealed(secret_key.as_bytes().to_vec())))
    }

    fn sign(secret_key: &Sealed, message: &[u8]) -> Result<Open, QraiopError> {
        let key = dilithium2::SecretKey::from_bytes(&secret_key.0)
            .map_err(|error| QraiopError::InvalidKey(format!("ML-DSA-44 secret key: {}", error)))?;
        Ok(Open(dilithium2::detached_sign(message, &key).as_bytes().to_vec()))
    }

    fn verify(public_key: &Open, message: &[u8], signature: &Open) -> Result<bool, QraiopError> {
        let key = dilithium2::PublicKey::from_bytes(&public_key.0)
            .map_err(|error| QraiopError::InvalidKey(format!("ML-DSA-44 public key: {}", error)))?;
        let signature = match dilithium2::DetachedSignature::from_bytes(&signature.0) {
            Ok(signature) => signature,
            Err(_) => return Ok(false),
        };
        Ok(dilithium2::verify_detached_signature(&signature, message, &key).is_ok())
    }

    fn security_level() -> SecurityLevel {
        SecurityLevel::Level1
    }

    fn algorithm_name() -> &'static str {
        "ML-DSA-44"
    }
}

#[test]
fn a_signature_verifies_under_its_key() {
    let (public_key, secret_key) = MlDsa44::keypair().unwrap();
    for message in [&b""[..], &b"m"[..], CANONICAL_MESSAGE.as_bytes(), &[0u8; 4096][..]] {
        let signature = MlDsa44::sign(&secret_key, message).unwrap();
        assert!(MlDsa44::verify(&public_key, message, &signature).unwrap());
    }
}

#[test]
fn a_signature_does_not_verify_for_another_message_or_key() {
    let (public_key, secret_key) = MlDsa44::keypair().unwrap();
    let (other_key, _) = MlDsa44::keypair().unwrap();
    let signature = MlDsa44::sign(&secret_key, b"message").unwrap();
    assert!(!MlDsa44::verify(&public_key, b"messagf", &signature).unwrap());
    assert!(!MlDsa44::verify(&other_key, b"message", &signature).unwrap());
}

#[test]
fn a_signature_with_one_bit_flipped_is_rejected() {
    let (public_key, secret_key) = MlDsa44::keypair().unwrap();
    let signature = MlDsa44::sign(&secret_key, b"message").unwrap();
    let length = signature.as_bytes().len();
    for position in [0, 1, 31, 32, length / 2, length - 1] {
        for bit in [0u8, 3, 7] {
            let mut bytes = signature.as_bytes().to_vec();
            bytes[position] ^= 1 << bit;
            assert!(!MlDsa44::verify(&public_key, b"message", &Open(bytes)).unwrap());
        }
    }
    let mut short = signature.as_bytes().to_vec();
    short.pop();
    assert!(!MlDsa44::verify(&public_key, b"message", &Open(short)).unwrap());
}

#[test]
fn malformed_signature_keys_are_invalid_keys() {
    let (public_key, secret_key) = MlDsa44::keypair().unwrap();
    let signature = MlDsa44::sign(&secret_key, b"message").unwrap();
    assert!(matches!(
        MlDsa44::sign(&Sealed(vec![0; 5]), b"message"),
        Err(QraiopError::InvalidKey(_))
    ));
    assert!(matches!(
        MlDsa44::verify(&Open(vec![0; 5]), b"message", &signature),
        Err(QraiopError::InvalidKey(_))
    ));
    let mut wiped = secret_key.clone();
    wiped.zeroize();
    assert!(matches!(MlDsa44::sign(&wiped, b"message"), Err(QraiopError::InvalidKey(_))));
    assert!(MlDsa44::verify(&public_key, b"message", &signature).unwrap());
}

#[test]
fn a_run_of_ml_dsa_44_is_recorded() {
    let record = benchmark_signature::<MlDsa44>().unwrap();
    assert_eq!(record.algorithm, "ML-DSA-44");
    assert_eq!(record.security_level, "Level-1");
    assert_eq!(record.public_key_size, dilithium2::public_key_bytes() + 8);
    assert_eq!(record.secret_key_size, dilithium2::secret_key_bytes());
    assert_eq!(record.signature_size, dilithium2::signature_bytes() + 8);
    assert_eq!(record.ciphertext_size, 0);
    assert_eq!(record.encap_time_ns, 0);
    assert_eq!(record.decap_time_ns, 0);
    assert!(record.keypair_time_ns > 0);
    assert!(record.sign_time_ns > 0);
    assert!(record.verify_time_ns > 0);
}
