//! ML-KEM, the module-lattice key encapsulation mechanism of FIPS 203, in its
//! three parameter sets. The lattice arithmetic is that of `pqcrypto-kyber`.

use crate::pqc::{Artifact, KeyEncapsulation, Secret};
use crate::utils::constant_time_eq;
use crate::utils::key_sizes::{ml_kem_1024, ml_kem_512, ml_kem_768};
use crate::{QraiopError, SecurityLevel};
use pqcrypto_kyber::{kyber1024, kyber512, kyber768};
use vstd::prelude::*;
use vstd::std_specs::cmp::PartialEqSpecImpl;
use vstd::string::*;

verus! {

/// ML-KEM-512, security level 1.
pub struct MlKem512;

/// ML-KEM-768, security level 3.
pub struct MlKem768;

/// ML-KEM-1024, security level 5.
pub struct MlKem1024;

/// Calls `zeroize::Zeroize::zeroize` on a byte vector, which overwrites the
/// bytes and the spare capacity with zeros and then empties the vector. Only
/// the emptiness is stated; the overwriting of storage is not something a
/// value's contents show.
#[verifier::external_body]
fn wipe(bytes: &mut Vec<u8>)
    ensures
        final(bytes)@.len() == 0,
    opens_invariants none
    no_unwind
{
    zeroize::Zeroize::zeroize(bytes)
}

/// The bytes of a public key.
pub struct PublicKey(Vec<u8>);

impl View for PublicKey {
    type V = Seq<u8>;

    closed spec fn view(&self) -> Seq<u8> {
        self.0@
    }
}

impl PublicKey {
    /// Takes `bytes` as a public key, whatever they are.
    pub fn new(bytes: Vec<u8>) -> (key: Self)
        ensures
            key@ == bytes@,
    {
        PublicKey(bytes)
    }
}

impl Artifact for PublicKey {
    open spec fn bytes(&self) -> Seq<u8> {
        self@
    }

    fn as_bytes(&self) -> (out: &[u8]) {
        self.0.as_slice()
    }
}

impl Clone for PublicKey {
    fn clone(&self) -> (copy: Self)
        ensures
            copy@ == self@,
    {
        PublicKey(self.0.clone())
    }
}

/// The bytes of a secret key. They are wiped when the key is dropped, and the
/// key cannot be printed.
pub struct SecretKey(Vec<u8>);

impl View for SecretKey {
    type V = Seq<u8>;

    closed spec fn view(&self) -> Seq<u8> {
        self.0@
    }
}

impl SecretKey {
    /// Takes `bytes` as a secret key, whatever they are.
    pub fn new(bytes: Vec<u8>) -> (key: Self)
        ensures
            key@ == bytes@,
    {
        SecretKey(bytes)
    }
}

impl Artifact for SecretKey {
    open spec fn bytes(&self) -> Seq<u8> {
        self@
    }

    fn as_bytes(&self) -> (out: &[u8]) {
        self.0.as_slice()
    }
}

impl Secret for SecretKey {
    /// Wipes the key. Nothing of it is left.
    fn zeroize(&mut self)
        ensures
            final(self)@.len() == 0,
    {
        wipe(&mut self.0)
    }
}

impl Clone for SecretKey {
    /// The copy is a secret of its own and is wiped on its own.
    fn clone(&self) -> (copy: Self)
        ensures
            copy@ == self@,
    {
        SecretKey(self.0.clone())
    }
}

impl Drop for SecretKey {
    fn drop(&mut self)
        opens_invariants none
        no_unwind
    {
        wipe(&mut self.0)
    }
}

/// The bytes of a ciphertext.
pub struct Ciphertext(Vec<u8>);

impl View for Ciphertext {
    type V = Seq<u8>;

    closed spec fn view(&self) -> Seq<u8> {
        self.0@
    }
}

impl Ciphertext {
    /// Takes `bytes` as a ciphertext, whatever they are.
    pub fn new(bytes: Vec<u8>) -> (text: Self)
        ensures
            text@ == bytes@,
    {
        Ciphertext(bytes)
    }
}

impl Artifact for Ciphertext {
    open spec fn bytes(&self) -> Seq<u8> {
        self@
    }

    fn as_bytes(&self) -> (out: &[u8]) {
        self.0.as_slice()
    }
}

impl Clone for Ciphertext {
    fn clone(&self) -> (copy: Self)
        ensures
            copy@ == self@,
    {
        Ciphertext(self.0.clone())
    }
}

/// The bytes of a shared secret. They are wiped when the secret is dropped,
/// the secret cannot be printed, and `==` on two of them compares in constant
/// time.
pub struct SharedSecret(Vec<u8>);

impl View for SharedSecret {
    type V = Seq<u8>;

    closed spec fn view(&self) -> Seq<u8> {
        self.0@
    }
}

impl SharedSecret {
    /// Takes `bytes` as a shared secret, whatever they are.
    pub fn new(bytes: Vec<u8>) -> (secret: Self)
        ensures
            secret@ == bytes@,
    {
        SharedSecret(bytes)
    }
}

impl Artifact for SharedSecret {
    open spec fn bytes(&self) -> Seq<u8> {
        self@
    }

    fn as_bytes(&self) -> (out: &[u8]) {
        self.0.as_slice()
    }
}

impl Secret for SharedSecret {
    /// Wipes the secret. Nothing of it is left.
    fn zeroize(&mut self)
        ensures
            final(self)@.len() == 0,
    {
        wipe(&mut self.0)
    }
}

impl Clone for SharedSecret {
    /// The copy is a secret of its own and is wiped on its own.
    fn clone(&self) -> (copy: Self)
        ensures
            copy@ == self@,
    {
        SharedSecret(self.0.clone())
    }
}

impl Drop for SharedSecret {
    fn drop(&mut self)
        opens_invariants none
        no_unwind
    {
        wipe(&mut self.0)
    }
}

impl PartialEq for SharedSecret {
    /// Compares the two secrets in constant time.
    fn eq(&self, other: &Self) -> (equal: bool) {
        constant_time_eq(self.0.as_slice(), other.0.as_slice())
    }
}

impl PartialEqSpecImpl for SharedSecret {
    open spec fn obeys_eq_spec() -> bool {
        true
    }

    open spec fn eq_spec(&self, other: &Self) -> bool {
        self@ == other@
    }
}

/// The length error of `pqcrypto-traits`, carried as it is.
#[verifier::external_type_specification]
#[verifier::external_body]
pub struct ExLengthError(pqcrypto_traits::Error);

/// The text `pqcrypto_traits::Error` displays as.
#[verifier::external_body]
fn length_error_text(error: &pqcrypto_traits::Error) -> (text: String) {
    error.to_string()
}

/// Why the lattice code would not decapsulate: which of its two inputs it
/// refused, with its own account of the refusal.
pub enum DecapsulationFault {
    SecretKey(pqcrypto_traits::Error),
    Ciphertext(pqcrypto_traits::Error),
}

/// In a pair of ML-KEM keys the secret key carries the public key, with 64
/// more bytes behind it.
pub open spec fn is_key_pair(public_key: Seq<u8>, secret_key: Seq<u8>) -> bool {
    &&& secret_key.len() >= public_key.len() + 64
    &&& secret_key.subrange(secret_key.len() - public_key.len() - 64, secret_key.len() - 64)
        == public_key
}

/// Wraps the two byte strings of a fresh pair of keys.
fn fresh_keys(pair: (Vec<u8>, Vec<u8>)) -> (keys: Result<(PublicKey, SecretKey), QraiopError>)
    ensures
        keys matches Ok((public_key, secret_key)) && public_key@ == pair.0@ && secret_key@
            == pair.1@,
{
    let (public_key, secret_key) = pair;
    Ok((PublicKey(public_key), SecretKey(secret_key)))
}

/// Turns the answer of the lattice code to an encapsulation into the
/// library's: the ciphertext and the secret as they came, or, where the public
/// key was refused, an `InvalidKey` whose context starts with the algorithm's
/// name and the words ` public key: `.
pub fn sealed_secret(
    algorithm: &str,
    outcome: Result<(Vec<u8>, Vec<u8>), pqcrypto_traits::Error>,
) -> (sealed: Result<(Ciphertext, SharedSecret), QraiopError>)
    ensures
        match outcome {
            Ok((ciphertext, shared_secret)) => sealed matches Ok((text, secret)) && text@
                == ciphertext@ && secret@ == shared_secret@,
            Err(_) => sealed matches Err(QraiopError::InvalidKey(context)) && (algorithm@
                + " public key: "@).is_prefix_of(context@),
        },
{
    match outcome {
        Ok((ciphertext, shared_secret)) => Ok(
            (Ciphertext(ciphertext), SharedSecret(shared_secret)),
        ),
        Err(error) => {
            let context = String::from_str(algorithm).concat(" public key: ").concat(
                length_error_text(&error).as_str(),
            );
            assert(context@.subrange(0, (algorithm@ + " public key: "@).len() as int) =~= algorithm@
                + " public key: "@);
            Err(QraiopError::InvalidKey(context))
        },
    }
}

/// Turns the answer of the lattice code to a decapsulation into the
/// library's: the secret as it came; where the secret key was refused, an
/// `InvalidKey` whose context starts with the algorithm's name and the words
/// ` secret key: `; where the ciphertext was refused, an `EncapsulationFailed`
/// whose context starts with `Invalid ciphertext: `.
pub fn opened_secret(algorithm: &str, outcome: Result<Vec<u8>, DecapsulationFault>) -> (opened:
    Result<SharedSecret, QraiopError>)
    ensures
        match outcome {
            Ok(shared_secret) => opened matches Ok(secret) && secret@ == shared_secret@,
            Err(DecapsulationFault::SecretKey(_)) => opened matches Err(
                QraiopError::InvalidKey(context),
            ) && (algorithm@ + " secret key: "@).is_prefix_of(context@),
            Err(DecapsulationFault::Ciphertext(_)) => opened matches Err(
                QraiopError::EncapsulationFailed(context),
            ) && "Invalid ciphertext: "@.is_prefix_of(context@),
        },
{
    match outcome {
        Ok(shared_secret) => Ok(SharedSecret(shared_secret)),
        Err(DecapsulationFault::SecretKey(error)) => {
            let context = String::from_str(algorithm).concat(" secret key: ").concat(
                length_error_text(&error).as_str(),
            );
            assert(context@.subrange(0, (algorithm@ + " secret key: "@).len() as int) =~= algorithm@
                + " secret key: "@);
            Err(QraiopError::InvalidKey(context))
        },
        Err(DecapsulationFault::Ciphertext(error)) => {
            let context = String::from_str("Invalid ciphertext: ").concat(
                length_error_text(&error).as_str(),
            );
            assert(context@.subrange(0, "Invalid ciphertext: "@.len() as int)
                =~= "Invalid ciphertext: "@);
            Err(QraiopError::EncapsulationFailed(context))
        },
    }
}

/// The shared secret that `kyber512::decapsulate` computes from a secret key
/// and a ciphertext of ML-KEM-512.
pub uninterp spec fn kyber512_decapsulation(secret_key: Seq<u8>, ciphertext: Seq<u8>) -> Seq<u8>;

/// Calls `kyber512::keypair` and copies the two keys out of their arrays.
/// The public key has 800 bytes and the secret key 1632; the key generation
/// of the lattice code copies the public key into the secret key, behind the
/// first 768 bytes.
#[verifier::external_body]
fn kyber512_keypair() -> (pair: (Vec<u8>, Vec<u8>))
    ensures
        pair.0@.len() == ml_kem_512::PUBLIC_KEY_SIZE,
        pair.1@.len() == ml_kem_512::SECRET_KEY_SIZE,
        is_key_pair(pair.0@, pair.1@),
{
    let (public_key, secret_key) = kyber512::keypair();
    (
        pqcrypto_traits::kem::PublicKey::as_bytes(&public_key).to_vec(),
        pqcrypto_traits::kem::SecretKey::as_bytes(&secret_key).to_vec(),
    )
}

/// Reads a public key with `kyber512::PublicKey::from_bytes`, which refuses
/// every length but 800, and calls `kyber512::encapsulate` on it. Returns
/// the ciphertext of 768 bytes first and the shared secret of 32 bytes
/// second. Both depend on fresh randomness, so no more is said of them.
#[verifier::external_body]
fn kyber512_encapsulate(public_key: &[u8]) -> (sealed: Result<
    (Vec<u8>, Vec<u8>),
    pqcrypto_traits::Error,
>)
    ensures
        sealed is Ok <==> public_key@.len() == ml_kem_512::PUBLIC_KEY_SIZE,
        sealed matches Ok((ciphertext, shared_secret)) ==> ciphertext@.len()
            == ml_kem_512::CIPHERTEXT_SIZE && shared_secret@.len()
            == ml_kem_512::SHARED_SECRET_SIZE,
{
    let key: kyber512::PublicKey = pqcrypto_traits::kem::PublicKey::from_bytes(public_key)?;
    let (shared_secret, ciphertext) = kyber512::encapsulate(&key);
    Ok(
        (
            pqcrypto_traits::kem::Ciphertext::as_bytes(&ciphertext).to_vec(),
            pqcrypto_traits::kem::SharedSecret::as_bytes(&shared_secret).to_vec(),
        ),
    )
}

/// Reads a secret key with `kyber512::SecretKey::from_bytes`, which refuses
/// every length but 1632, then a ciphertext with
/// `kyber512::Ciphertext::from_bytes`, which refuses every length but 768,
/// and calls `kyber512::decapsulate` on the two. The shared secret has 32
/// bytes and is a function of key and ciphertext alone; a ciphertext that the
/// key does not match yields a secret all the same.
#[verifier::external_body]
fn kyber512_decapsulate(secret_key: &[u8], ciphertext: &[u8]) -> (opened: Result<
    Vec<u8>,
    DecapsulationFault,
>)
    ensures
        opened matches Err(DecapsulationFault::SecretKey(_)) <==> secret_key@.len()
            != ml_kem_512::SECRET_KEY_SIZE,
        opened matches Err(DecapsulationFault::Ciphertext(_)) <==> (secret_key@.len()
            == ml_kem_512::SECRET_KEY_SIZE && ciphertext@.len() != ml_kem_512::CIPHERTEXT_SIZE),
        opened matches Ok(shared_secret) ==> shared_secret@ == kyber512_decapsulation(
            secret_key@,
            ciphertext@,
        ) && shared_secret@.len() == ml_kem_512::SHARED_SECRET_SIZE,
{
    let key: kyber512::SecretKey = pqcrypto_traits::kem::SecretKey::from_bytes(
        secret_key,
    ).map_err(DecapsulationFault::SecretKey)?;
    let text: kyber512::Ciphertext = pqcrypto_traits::kem::Ciphertext::from_bytes(
        ciphertext,
    ).map_err(DecapsulationFault::Ciphertext)?;
    let shared_secret = kyber512::decapsulate(&text, &key);
    Ok(pqcrypto_traits::kem::SharedSecret::as_bytes(&shared_secret).to_vec())
}

impl KeyEncapsulation for MlKem512 {
    type PublicKey = PublicKey;

    type SecretKey = SecretKey;

    type Ciphertext = Ciphertext;

    type SharedSecret = SharedSecret;

    open spec fn spec_security_level() -> SecurityLevel {
        SecurityLevel::Level1
    }

    open spec fn spec_algorithm_name() -> Seq<char> {
        "ML-KEM-512"@
    }

    open spec fn valid_public_key(bytes: Seq<u8>) -> bool {
        bytes.len() == ml_kem_512::PUBLIC_KEY_SIZE
    }

    open spec fn valid_secret_key(bytes: Seq<u8>) -> bool {
        bytes.len() == ml_kem_512::SECRET_KEY_SIZE
    }

    open spec fn valid_ciphertext(bytes: Seq<u8>) -> bool {
        bytes.len() == ml_kem_512::CIPHERTEXT_SIZE
    }

    open spec fn decapsulation(secret_key: Seq<u8>, ciphertext: Seq<u8>) -> Seq<u8> {
        kyber512_decapsulation(secret_key, ciphertext)
    }

    /// Always succeeds: a public key of 800 bytes and a secret key of 1632
    /// bytes that carries it.
    fn keypair() -> (pair: Result<(PublicKey, SecretKey), QraiopError>)
        ensures
            pair matches Ok((public_key, secret_key)) && is_key_pair(public_key@, secret_key@),
    {
        fresh_keys(kyber512_keypair())
    }

    /// Succeeds exactly on a public key of 800 bytes, with a ciphertext of
    /// 768 bytes and a shared secret of 32.
    fn encapsulate(public_key: &PublicKey) -> (sealed: Result<
        (Ciphertext, SharedSecret),
        QraiopError,
    >)
        ensures
            sealed is Ok <==> Self::valid_public_key(public_key@),
            sealed matches Ok((_, shared_secret)) ==> shared_secret@.len()
                == ml_kem_512::SHARED_SECRET_SIZE,
            sealed matches Err(QraiopError::InvalidKey(context)) ==> ("ML-KEM-512"@
                + " public key: "@).is_prefix_of(context@),
    {
        sealed_secret("ML-KEM-512", kyber512_encapsulate(public_key.as_bytes()))
    }

    /// Succeeds exactly on a secret key of 1632 bytes with a ciphertext of
    /// 768 bytes, with a shared secret of 32 bytes.
    fn decapsulate(secret_key: &SecretKey, ciphertext: &Ciphertext) -> (opened: Result<
        SharedSecret,
        QraiopError,
    >)
        ensures
            opened is Ok <==> Self::valid_secret_key(secret_key@) && Self::valid_ciphertext(
                ciphertext@,
            ),
            opened matches Ok(shared_secret) ==> shared_secret@.len()
                == ml_kem_512::SHARED_SECRET_SIZE,
            opened matches Err(QraiopError::InvalidKey(context)) ==> ("ML-KEM-512"@
                + " secret key: "@).is_prefix_of(context@),
            opened matches Err(QraiopError::EncapsulationFailed(context))
                ==> "Invalid ciphertext: "@.is_prefix_of(context@),
    {
        opened_secret(
            "ML-KEM-512",
            kyber512_decapsulate(secret_key.as_bytes(), ciphertext.as_bytes()),
        )
    }

    fn security_level() -> (level: SecurityLevel) {
        SecurityLevel::Level1
    }

    fn algorithm_name() -> (name: &'static str) {
        "ML-KEM-512"
    }
}

/// The shared secret that `kyber768::decapsulate` computes from a secret key
/// and a ciphertext of ML-KEM-768.
pub uninterp spec fn kyber768_decapsulation(secret_key: Seq<u8>, ciphertext: Seq<u8>) -> Seq<u8>;

/// Calls `kyber768::keypair` and copies the two keys out of their arrays.
/// The public key has 1184 bytes and the secret key 2400; the key generation
/// of the lattice code copies the public key into the secret key, behind the
/// first 1152 bytes.
#[verifier::external_body]
fn kyber768_keypair() -> (pair: (Vec<u8>, Vec<u8>))
    ensures
        pair.0@.len() == ml_kem_768::PUBLIC_KEY_SIZE,
        pair.1@.len() == ml_kem_768::SECRET_KEY_SIZE,
        is_key_pair(pair.0@, pair.1@),
{
    let (public_key, secret_key) = kyber768::keypair();
    (
        pqcrypto_traits::kem::PublicKey::as_bytes(&public_key).to_vec(),
        pqcrypto_traits::kem::SecretKey::as_bytes(&secret_key).to_vec(),
    )
}

/// Reads a public key with `kyber768::PublicKey::from_bytes`, which refuses
/// every length but 1184, and calls `kyber768::encapsulate` on it. Returns
/// the ciphertext of 1088 bytes first and the shared secret of 32 bytes
/// second. Both depend on fresh randomness, so no more is said of them.
#[verifier::external_body]
fn kyber768_encapsulate(public_key: &[u8]) -> (sealed: Result<
    (Vec<u8>, Vec<u8>),
    pqcrypto_traits::Error,
>)
    ensures
        sealed is Ok <==> public_key@.len() == ml_kem_768::PUBLIC_KEY_SIZE,
        sealed matches Ok((ciphertext, shared_secret)) ==> ciphertext@.len()
            == ml_kem_768::CIPHERTEXT_SIZE && shared_secret@.len()
            == ml_kem_768::SHARED_SECRET_SIZE,
{
    let key: kyber768::PublicKey = pqcrypto_traits::kem::PublicKey::from_bytes(public_key)?;
    let (shared_secret, ciphertext) = kyber768::encapsulate(&key);
    Ok(
        (
            pqcrypto_traits::kem::Ciphertext::as_bytes(&ciphertext).to_vec(),
            pqcrypto_traits::kem::SharedSecret::as_bytes(&shared_secret).to_vec(),
        ),
    )
}

/// Reads a secret key with `kyber768::SecretKey::from_bytes`, which refuses
/// every length but 2400, then a ciphertext with
/// `kyber768::Ciphertext::from_bytes`, which refuses every length but 1088,
/// and calls `kyber768::decapsulate` on the two. The shared secret has 32
/// bytes and is a function of key and ciphertext alone; a ciphertext that the
/// key does not match yields a secret all the same.
#[verifier::external_body]
fn kyber768_decapsulate(secret_key: &[u8], ciphertext: &[u8]) -> (opened: Result<
    Vec<u8>,
    DecapsulationFault,
>)
    ensures
        opened matches Err(DecapsulationFault::SecretKey(_)) <==> secret_key@.len()
            != ml_kem_768::SECRET_KEY_SIZE,
        opened matches Err(DecapsulationFault::Ciphertext(_)) <==> (secret_key@.len()
            == ml_kem_768::SECRET_KEY_SIZE && ciphertext@.len() != ml_kem_768::CIPHERTEXT_SIZE),
        opened matches Ok(shared_secret) ==> shared_secret@ == kyber768_decapsulation(
            secret_key@,
            ciphertext@,
        ) && shared_secret@.len() == ml_kem_768::SHARED_SECRET_SIZE,
{
    let key: kyber768::SecretKey = pqcrypto_traits::kem::SecretKey::from_bytes(
        secret_key,
    ).map_err(DecapsulationFault::SecretKey)?;
    let text: kyber768::Ciphertext = pqcrypto_traits::kem::Ciphertext::from_bytes(
        ciphertext,
    ).map_err(DecapsulationFault::Ciphertext)?;
    let shared_secret = kyber768::decapsulate(&text, &key);
    Ok(pqcrypto_traits::kem::SharedSecret::as_bytes(&shared_secret).to_vec())
}

impl KeyEncapsulation for MlKem768 {
    type PublicKey = PublicKey;

    type SecretKey = SecretKey;

    type Ciphertext = Ciphertext;

    type SharedSecret = SharedSecret;

    open spec fn spec_security_level() -> SecurityLevel {
        SecurityLevel::Level3
    }

    open spec fn spec_algorithm_name() -> Seq<char> {
        "ML-KEM-768"@
    }

    open spec fn valid_public_key(bytes: Seq<u8>) -> bool {
        bytes.len() == ml_kem_768::PUBLIC_KEY_SIZE
    }

    open spec fn valid_secret_key(bytes: Seq<u8>) -> bool {
        bytes.len() == ml_kem_768::SECRET_KEY_SIZE
    }

    open spec fn valid_ciphertext(bytes: Seq<u8>) -> bool {
        bytes.len() == ml_kem_768::CIPHERTEXT_SIZE
    }

    open spec fn decapsulation(secret_key: Seq<u8>, ciphertext: Seq<u8>) -> Seq<u8> {
        kyber768_decapsulation(secret_key, ciphertext)
    }

    /// Always succeeds: a public key of 1184 bytes and a secret key of 2400
    /// bytes that carries it.
    fn keypair() -> (pair: Result<(PublicKey, SecretKey), QraiopError>)
        ensures
            pair matches Ok((public_key, secret_key)) && is_key_pair(public_key@, secret_key@),
    {
        fresh_keys(kyber768_keypair())
    }

    /// Succeeds exactly on a public key of 1184 bytes, with a ciphertext of
    /// 1088 bytes and a shared secret of 32.
    fn encapsulate(public_key: &PublicKey) -> (sealed: Result<
        (Ciphertext, SharedSecret),
        QraiopError,
    >)
        ensures
            sealed is Ok <==> Self::valid_public_key(public_key@),
            sealed matches Ok((_, shared_secret)) ==> shared_secret@.len()
                == ml_kem_768::SHARED_SECRET_SIZE,
            sealed matches Err(QraiopError::InvalidKey(context)) ==> ("ML-KEM-768"@
                + " public key: "@).is_prefix_of(context@),
    {
        sealed_secret("ML-KEM-768", kyber768_encapsulate(public_key.as_bytes()))
    }

    /// Succeeds exactly on a secret key of 2400 bytes with a ciphertext of
    /// 1088 bytes, with a shared secret of 32 bytes.
    fn decapsulate(secret_key: &SecretKey, ciphertext: &Ciphertext) -> (opened: Result<
        SharedSecret,
        QraiopError,
    >)
        ensures
            opened is Ok <==> Self::valid_secret_key(secret_key@) && Self::valid_ciphertext(
                ciphertext@,
            ),
            opened matches Ok(shared_secret) ==> shared_secret@.len()
                == ml_kem_768::SHARED_SECRET_SIZE,
            opened matches Err(QraiopError::InvalidKey(context)) ==> ("ML-KEM-768"@
                + " secret key: "@).is_prefix_of(context@),
            opened matches Err(QraiopError::EncapsulationFailed(context))
                ==> "Invalid ciphertext: "@.is_prefix_of(context@),
    {
        opened_secret(
            "ML-KEM-768",
            kyber768_decapsulate(secret_key.as_bytes(), ciphertext.as_bytes()),
        )
    }

    fn security_level() -> (level: SecurityLevel) {
        SecurityLevel::Level3
    }

    fn algorithm_name() -> (name: &'static str) {
        "ML-KEM-768"
    }
}

/// The shared secret that `kyber1024::decapsulate` computes from a secret key
/// and a ciphertext of ML-KEM-1024.
pub uninterp spec fn kyber1024_decapsulation(secret_key: Seq<u8>, ciphertext: Seq<u8>) -> Seq<u8>;

/// Calls `kyber1024::keypair` and copies the two keys out of their arrays.
/// The public key has 1568 bytes and the secret key 3168; the key generation
/// of the lattice code copies the public key into the secret key, behind the
/// first 1536 bytes.
#[verifier::external_body]
fn kyber1024_keypair() -> (pair: (Vec<u8>, Vec<u8>))
    ensures
        pair.0@.len() == ml_kem_1024::PUBLIC_KEY_SIZE,
        pair.1@.len() == ml_kem_1024::SECRET_KEY_SIZE,
        is_key_pair(pair.0@, pair.1@),
{
    let (public_key, secret_key) = kyber1024::keypair();
    (
        pqcrypto_traits::kem::PublicKey::as_bytes(&public_key).to_vec(),
        pqcrypto_traits::kem::SecretKey::as_bytes(&secret_key).to_vec(),
    )
}

/// Reads a public key with `kyber1024::PublicKey::from_bytes`, which refuses
/// every length but 1568, and calls `kyber1024::encapsulate` on it. Returns
/// the ciphertext of 1568 bytes first and the shared secret of 32 bytes
/// second. Both depend on fresh randomness, so no more is said of them.
#[verifier::external_body]
fn kyber1024_encapsulate(public_key: &[u8]) -> (sealed: Result<
    (Vec<u8>, Vec<u8>),
    pqcrypto_traits::Error,
>)
    ensures
        sealed is Ok <==> public_key@.len() == ml_kem_1024::PUBLIC_KEY_SIZE,
        sealed matches Ok((ciphertext, shared_secret)) ==> ciphertext@.len()
            == ml_kem_1024::CIPHERTEXT_SIZE && shared_secret@.len()
            == ml_kem_1024::SHARED_SECRET_SIZE,
{
    let key: kyber1024::PublicKey = pqcrypto_traits::kem::PublicKey::from_bytes(public_key)?;
    let (shared_secret, ciphertext) = kyber1024::encapsulate(&key);
    Ok(
        (
            pqcrypto_traits::kem::Ciphertext::as_bytes(&ciphertext).to_vec(),
            pqcrypto_traits::kem::SharedSecret::as_bytes(&shared_secret).to_vec(),
        ),
    )
}

/// Reads a secret key with `kyber1024::SecretKey::from_bytes`, which refuses
/// every length but 3168, then a ciphertext with
/// `kyber1024::Ciphertext::from_bytes`, which refuses every length but 1568,
/// and calls `kyber1024::decapsulate` on the two. The shared secret has 32
/// bytes and is a function of key and ciphertext alone; a ciphertext that the
/// key does not match yields a secret all the same.
#[verifier::external_body]
fn kyber1024_decapsulate(secret_key: &[u8], ciphertext: &[u8]) -> (opened: Result<
    Vec<u8>,
    DecapsulationFault,
>)
    ensures
        opened matches Err(DecapsulationFault::SecretKey(_)) <==> secret_key@.len()
            != ml_kem_1024::SECRET_KEY_SIZE,
        opened matches Err(DecapsulationFault::Ciphertext(_)) <==> (secret_key@.len()
            == ml_kem_1024::SECRET_KEY_SIZE && ciphertext@.len() != ml_kem_1024::CIPHERTEXT_SIZE),
        opened matches Ok(shared_secret) ==> shared_secret@ == kyber1024_decapsulation(
            secret_key@,
            ciphertext@,
        ) && shared_secret@.len() == ml_kem_1024::SHARED_SECRET_SIZE,
{
    let key: kyber1024::SecretKey = pqcrypto_traits::kem::SecretKey::from_bytes(
        secret_key,
    ).map_err(DecapsulationFault::SecretKey)?;
    let text: kyber1024::Ciphertext = pqcrypto_traits::kem::Ciphertext::from_bytes(
        ciphertext,
    ).map_err(DecapsulationFault::Ciphertext)?;
    let shared_secret = kyber1024::decapsulate(&text, &key);
    Ok(pqcrypto_traits::kem::SharedSecret::as_bytes(&shared_secret).to_vec())
}

impl KeyEncapsulation for MlKem1024 {
    type PublicKey = PublicKey;

    type SecretKey = SecretKey;

    type Ciphertext = Ciphertext;

    type SharedSecret = SharedSecret;

    open spec fn spec_security_level() -> SecurityLevel {
        SecurityLevel::Level5
    }

    open spec fn spec_algorithm_name() -> Seq<char> {
        "ML-KEM-1024"@
    }

    open spec fn valid_public_key(bytes: Seq<u8>) -> bool {
        bytes.len() == ml_kem_1024::PUBLIC_KEY_SIZE
    }

    open spec fn valid_secret_key(bytes: Seq<u8>) -> bool {
        bytes.len() == ml_kem_1024::SECRET_KEY_SIZE
    }

    open spec fn valid_ciphertext(bytes: Seq<u8>) -> bool {
        bytes.len() == ml_kem_1024::CIPHERTEXT_SIZE
    }

    open spec fn decapsulation(secret_key: Seq<u8>, ciphertext: Seq<u8>) -> Seq<u8> {
        kyber1024_decapsulation(secret_key, ciphertext)
    }

    /// Always succeeds: a public key of 1568 bytes and a secret key of 3168
    /// bytes that carries it.
    fn keypair() -> (pair: Result<(PublicKey, SecretKey), QraiopError>)
        ensures
            pair matches Ok((public_key, secret_key)) && is_key_pair(public_key@, secret_key@),
    {
        fresh_keys(kyber1024_keypair())
    }

    /// Succeeds exactly on a public key of 1568 bytes, with a ciphertext of
    /// 1568 bytes and a shared secret of 32.
    fn encapsulate(public_key: &PublicKey) -> (sealed: Result<
        (Ciphertext, SharedSecret),
        QraiopError,
    >)
        ensures
            sealed is Ok <==> Self::valid_public_key(public_key@),
            sealed matches Ok((_, shared_secret)) ==> shared_secret@.len()
                == ml_kem_1024::SHARED_SECRET_SIZE,
            sealed matches Err(QraiopError::InvalidKey(context)) ==> ("ML-KEM-1024"@
                + " public key: "@).is_prefix_of(context@),
    {
        sealed_secret("ML-KEM-1024", kyber1024_encapsulate(public_key.as_bytes()))
    }

    /// Succeeds exactly on a secret key of 3168 bytes with a ciphertext of
    /// 1568 bytes, with a shared secret of 32 bytes.
    fn decapsulate(secret_key: &SecretKey, ciphertext: &Ciphertext) -> (opened: Result<
        SharedSecret,
        QraiopError,
    >)
        ensures
            opened is Ok <==> Self::valid_secret_key(secret_key@) && Self::valid_ciphertext(
                ciphertext@,
            ),
            opened matches Ok(shared_secret) ==> shared_secret@.len()
                == ml_kem_1024::SHARED_SECRET_SIZE,
            opened matches Err(QraiopError::InvalidKey(context)) ==> ("ML-KEM-1024"@
                + " secret key: "@).is_prefix_of(context@),
            opened matches Err(QraiopError::EncapsulationFailed(context))
                ==> "Invalid ciphertext: "@.is_prefix_of(context@),
    {
        opened_secret(
            "ML-KEM-1024",
            kyber1024_decapsulate(secret_key.as_bytes(), ciphertext.as_bytes()),
        )
    }

    fn security_level() -> (level: SecurityLevel) {
        SecurityLevel::Level5
    }

    fn algorithm_name() -> (name: &'static str) {
        "ML-KEM-1024"
    }
}

} // verus!
