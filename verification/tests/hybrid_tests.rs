use qraiop_crypto::hybrid::{both, both_accept, join};
use qraiop_crypto::pqc::kyber::{
    Ciphertext, MlKem1024, MlKem512, PublicKey, SecretKey, SharedSecret,
};
use qraiop_crypto::pqc::{Artifact, Secret};
use qraiop_crypto::{HybridKem, KeyEncapsulation, QraiopError, SecurityLevel};

fn crypto(context: &str) -> QraiopError {
    QraiopError::CryptoError(context.to_string())
}

#[test]
fn two_successes_are_a_success() {
    let joined = both::<u8, &str>(Ok(1), Ok("two"));
    assert!(matches!(joined, Ok((1, "two"))));
}

#[test]
fn a_failure_of_either_part_fails_the_whole() {
    match both::<u8, u8>(Err(crypto("classical")), Ok(2)) {
        Err(QraiopError::CryptoError(context)) => assert_eq!(context, "classical"),
        _ => panic!("fell back on the post-quantum part"),
    }
    match both::<u8, u8>(Ok(1), Err(QraiopError::InvalidKey("post-quantum".to_string()))) {
        Err(QraiopError::InvalidKey(context)) => assert_eq!(context, "post-quantum"),
        _ => panic!("fell back on the classical part"),
    }
    match both::<u8, u8>(Err(crypto("classical")), Err(crypto("post-quantum"))) {
        Err(QraiopError::CryptoError(context)) => assert_eq!(context, "classical"),
        _ => panic!("two failures were not a failure"),
    }
}

#[test]
fn a_hybrid_signature_needs_both_verdicts() {
    assert!(matches!(both_accept(Ok(true), Ok(true)), Ok(true)));
    assert!(matches!(both_accept(Ok(true), Ok(false)), Ok(false)));
    assert!(matches!(both_accept(Ok(false), Ok(true)), Ok(false)));
    assert!(matches!(both_accept(Ok(false), Ok(false)), Ok(false)));
    assert!(matches!(
        both_accept(Ok(true), Err(QraiopError::SignatureVerificationFailed)),
        Err(QraiopError::SignatureVerificationFailed)
    ));
    assert!(matches!(
        both_accept(Err(crypto("classical")), Ok(true)),
        Err(QraiopError::CryptoError(_))
    ));
}

#[test]
fn joined_outputs_are_the_first_then_the_second() {
    assert_eq!(join(&[1, 2], &[3]), vec![1, 2, 3]);
    assert_eq!(join(&[], &[3]), vec![3]);
    assert_eq!(join(&[1], &[]), vec![1]);
    assert!(join(&[], &[]).is_empty());
}

/// Two parameter sets of ML-KEM behind one interface, the smaller standing in
/// for a classical mechanism.
struct Doubled;

impl KeyEncapsulation for Doubled {
    type PublicKey = PublicKey;
    type SecretKey = SecretKey;
    type Ciphertext = Ciphertext;
    type SharedSecret = SharedSecret;

    fn keypair() -> Result<(PublicKey, SecretKey), QraiopError> {
        let ((pk1, sk1), (pk2, sk2)) = both(MlKem512::keypair(), MlKem1024::keypair())?;
        Ok((
            PublicKey::new(join(pk1.as_bytes(), pk2.as_bytes())),
            SecretKey::new(join(sk1.as_bytes(), sk2.as_bytes())),
        ))
    }

    fn encapsulate(public_key: &PublicKey) -> Result<(Ciphertext, SharedSecret), QraiopError> {
        let bytes = public_key.as_bytes();
        if bytes.len() != 800 + 1568 {
            return Err(QraiopError::InvalidKey("a hybrid public key has 2368 bytes".to_string()));
        }
        let first = PublicKey::new(bytes[..800].to_vec());
        let second = PublicKey::new(bytes[800..].to_vec());
        let ((ct1, ss1), (ct2, ss2)) =
            both(MlKem512::encapsulate(&first), MlKem1024::encapsulate(&second))?;
        Ok((
            Ciphertext::new(join(ct1.as_bytes(), ct2.as_bytes())),
            SharedSecret::new(join(ss1.as_bytes(), ss2.as_bytes())),
        ))
    }

    fn decapsulate(
        secret_key: &SecretKey,
        ciphertext: &Ciphertext,
    ) -> Result<SharedSecret, QraiopError> {
        let key = secret_key.as_bytes();
        let text = ciphertext.as_bytes();
        let first = SecretKey::new(key[..key.len().min(1632)].to_vec());
        let second = SecretKey::new(key[key.len().min(1632)..].to_vec());
        let ct1 = Ciphertext::new(text[..text.len().min(768)].to_vec());
        let ct2 = Ciphertext::new(text[text.len().min(768)..].to_vec());
        let (ss1, ss2) =
            both(MlKem512::decapsulate(&first, &ct1), MlKem1024::decapsulate(&second, &ct2))?;
        Ok(SharedSecret::new(join(ss1.as_bytes(), ss2.as_bytes())))
    }

    fn security_level() -> SecurityLevel {
        SecurityLevel::Level1
    }

    fn algorithm_name() -> &'static str {
        "ML-KEM-512+ML-KEM-1024"
    }
}

impl HybridKem for Doubled {
    type Classical = MlKem512;
    type PostQuantum = MlKem1024;
}

#[test]
fn a_hybrid_of_two_mechanisms_round_trips() {
    let (pk, sk) = Doubled::keypair().unwrap();
    let (ct, sent) = Doubled::encapsulate(&pk).unwrap();
    let received = Doubled::decapsulate(&sk, &ct).unwrap();
    assert!(sent == received);
    assert_eq!(sent.as_bytes().len(), 64);
    assert_eq!(ct.as_bytes().len(), 768 + 1568);
}

#[test]
fn a_hybrid_fails_when_one_part_fails() {
    let (pk, sk) = Doubled::keypair().unwrap();
    let (ct, _) = Doubled::encapsulate(&pk).unwrap();
    let mut short = ct.as_bytes().to_vec();
    short.pop();
    assert!(matches!(
        Doubled::decapsulate(&sk, &Ciphertext::new(short)),
        Err(QraiopError::EncapsulationFailed(_))
    ));
    let mut key = sk.clone();
    key.zeroize();
    assert!(matches!(Doubled::decapsulate(&key, &ct), Err(QraiopError::InvalidKey(_))));
    let record = qraiop_crypto::pqc::benchmark_kem::<Doubled>().unwrap();
    assert_eq!(record.algorithm, "ML-KEM-512+ML-KEM-1024");
    assert_eq!(record.public_key_size, 2368 + 8);
}
