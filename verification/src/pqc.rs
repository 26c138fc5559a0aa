//! The interfaces that every post-quantum algorithm family is reached
//! through, and the harness that measures any of them.

use crate::utils::BenchmarkTimer;
use crate::{QraiopError, SecurityLevel};
use vstd::prelude::*;
use vstd::string::*;

pub mod kyber;

verus! {

/// A value that is a string of bytes and no secret: a public key, a
/// ciphertext, a signature.
///
/// What the `spec` functions of this trait and of those below mean is for
/// each implementation to say. One that leaves them as they are says nothing:
/// of such an implementation only what it was built to do is known.
pub trait Artifact {
    /// The bytes of the value.
    open spec fn bytes(&self) -> Seq<u8> {
        arbitrary()
    }

    /// Lends the bytes of the value.
    fn as_bytes(&self) -> (out: &[u8])
        ensures
            out@ == self.bytes(),
    ;
}

/// Secret bytes: a secret key or a shared secret. Whoever ends the life of
/// such a value wipes it first.
pub trait Secret: Artifact {
    /// Overwrites the secret. No byte that is left afterwards is other than
    /// zero.
    fn zeroize(&mut self)
        ensures
            forall|i: int| 0 <= i < final(self).bytes().len() ==> final(self).bytes()[i] == 0u8,
    ;
}

/// A key encapsulation mechanism. An algorithm family implements it once for
/// each of its parameter sets.
///
/// Every mechanism owes its users that a ciphertext opens, under the secret
/// key of the pair, to the secret it was made with. That is a matter of each
/// family's arithmetic and is left to it; what is fixed here is what the
/// operations accept, how they fail, and that opening is a function of key
/// and ciphertext.
pub trait KeyEncapsulation {
    type PublicKey: Clone + Artifact;

    type SecretKey: Clone + Secret;

    type Ciphertext: Clone + Artifact;

    type SharedSecret: Clone + Secret;

    /// The one security level of the parameter set.
    open spec fn spec_security_level() -> SecurityLevel {
        arbitrary()
    }

    /// The one name of the parameter set.
    open spec fn spec_algorithm_name() -> Seq<char> {
        arbitrary()
    }

    /// Whether `bytes` have the structure of a public key of the parameter set.
    open spec fn valid_public_key(bytes: Seq<u8>) -> bool {
        arbitrary()
    }

    /// Whether `bytes` have the structure of a secret key of the parameter set.
    open spec fn valid_secret_key(bytes: Seq<u8>) -> bool {
        arbitrary()
    }

    /// Whether `bytes` have the structure of a ciphertext of the parameter set.
    open spec fn valid_ciphertext(bytes: Seq<u8>) -> bool {
        arbitrary()
    }

    /// The shared secret that a well-formed secret key recovers from a
    /// well-formed ciphertext.
    open spec fn decapsulation(secret_key: Seq<u8>, ciphertext: Seq<u8>) -> Seq<u8> {
        arbitrary()
    }

    /// Generates a fresh pair of keys. Both are well-formed; the only failure
    /// is a `CryptoError`.
    fn keypair() -> (pair: Result<(Self::PublicKey, Self::SecretKey), QraiopError>)
        ensures
            pair matches Ok((public_key, secret_key)) ==> Self::valid_public_key(
                public_key.bytes(),
            ) && Self::valid_secret_key(secret_key.bytes()),
            pair matches Err(error) ==> error is CryptoError,
    ;

    /// Produces a fresh ciphertext for `public_key`, with the secret it
    /// carries. A malformed public key is an `InvalidKey`.
    fn encapsulate(public_key: &Self::PublicKey) -> (sealed: Result<
        (Self::Ciphertext, Self::SharedSecret),
        QraiopError,
    >)
        ensures
            !Self::valid_public_key(public_key.bytes()) ==> sealed matches Err(
                QraiopError::InvalidKey(_),
            ),
            sealed matches Ok((ciphertext, _)) ==> Self::valid_ciphertext(ciphertext.bytes()),
    ;

    /// Recovers the shared secret from `ciphertext`: the same secret for the
    /// same key and ciphertext, whenever it is called. A malformed secret key
    /// is an `InvalidKey`; with a well-formed key, a malformed ciphertext is
    /// an `EncapsulationFailed`.
    fn decapsulate(secret_key: &Self::SecretKey, ciphertext: &Self::Ciphertext) -> (opened: Result<
        Self::SharedSecret,
        QraiopError,
    >)
        ensures
            !Self::valid_secret_key(secret_key.bytes()) ==> opened matches Err(
                QraiopError::InvalidKey(_),
            ),
            Self::valid_secret_key(secret_key.bytes()) && !Self::valid_ciphertext(
                ciphertext.bytes(),
            ) ==> opened matches Err(QraiopError::EncapsulationFailed(_)),
            opened matches Ok(shared_secret) ==> shared_secret.bytes() == Self::decapsulation(
                secret_key.bytes(),
                ciphertext.bytes(),
            ),
    ;

    /// The security level of the parameter set.
    fn security_level() -> (level: SecurityLevel)
        ensures
            level == Self::spec_security_level(),
    ;

    /// The name of the parameter set.
    fn algorithm_name() -> (name: &'static str)
        ensures
            name@ == Self::spec_algorithm_name(),
    ;
}

/// A digital signature scheme. An algorithm family implements it once for
/// each of its parameter sets.
///
/// Every scheme owes its users that a signature it made is accepted under
/// the public key of the pair: `sign` promises it of every public key that
/// `key_pair` joins to the secret key, as `keypair` joins the two it makes.
/// That an altered signature is rejected is a matter of each family's
/// arithmetic and is left to it. Acceptance is a function of key, message
/// and signature, and a malformed key is refused as an `InvalidKey` before
/// anything is computed.
pub trait DigitalSignature {
    type PublicKey: Clone + Artifact;

    type SecretKey: Clone + Secret;

    type Signature: Clone + Artifact;

    /// The one security level of the parameter set.
    open spec fn spec_security_level() -> SecurityLevel {
        arbitrary()
    }

    /// The one name of the parameter set.
    open spec fn spec_algorithm_name() -> Seq<char> {
        arbitrary()
    }

    /// Whether `bytes` have the structure of a public key of the parameter set.
    open spec fn valid_public_key(bytes: Seq<u8>) -> bool {
        arbitrary()
    }

    /// Whether `bytes` have the structure of a secret key of the parameter set.
    open spec fn valid_secret_key(bytes: Seq<u8>) -> bool {
        arbitrary()
    }

    /// Whether `bytes` have the structure of a signature of the parameter set.
    open spec fn valid_signature(bytes: Seq<u8>) -> bool {
        arbitrary()
    }

    /// Whether the two keys belong together, as `keypair` makes them.
    open spec fn key_pair(public_key: Seq<u8>, secret_key: Seq<u8>) -> bool {
        arbitrary()
    }

    /// Whether `signature` is accepted for `message` under `public_key`.
    open spec fn accepts(public_key: Seq<u8>, message: Seq<u8>, signature: Seq<u8>) -> bool {
        arbitrary()
    }

    /// Generates a fresh pair of keys. Both are well-formed and belong
    /// together; the only failure is a `CryptoError`.
    fn keypair() -> (pair: Result<(Self::PublicKey, Self::SecretKey), QraiopError>)
        ensures
            pair matches Ok((public_key, secret_key)) ==> {
                &&& Self::valid_public_key(public_key.bytes())
                &&& Self::valid_secret_key(secret_key.bytes())
                &&& Self::key_pair(public_key.bytes(), secret_key.bytes())
            },
            pair matches Err(error) ==> error is CryptoError,
    ;

    /// Signs `message`. A signature that comes back is well-formed and is
    /// accepted for that message under every public key that belongs to the
    /// secret key. A malformed secret key is an `InvalidKey`.
    fn sign(secret_key: &Self::SecretKey, message: &[u8]) -> (signed: Result<
        Self::Signature,
        QraiopError,
    >)
        ensures
            !Self::valid_secret_key(secret_key.bytes()) ==> signed matches Err(
                QraiopError::InvalidKey(_),
            ),
            signed matches Ok(signature) ==> Self::valid_signature(signature.bytes()),
            signed matches Ok(signature) ==> forall|public_key: Seq<u8>| #[trigger]
                Self::key_pair(public_key, secret_key.bytes()) ==> Self::accepts(
                    public_key,
                    message@,
                    signature.bytes(),
                ),
    ;

    /// Decides whether `signature` is one of `message` under `public_key`:
    /// the same answer for the same three, whenever it is called. A malformed
    /// public key is an `InvalidKey`. A rejection may also be reported as
    /// `SignatureVerificationFailed`, which is given for well-formed inputs
    /// only.
    fn verify(
        public_key: &Self::PublicKey,
        message: &[u8],
        signature: &Self::Signature,
    ) -> (verified: Result<bool, QraiopError>)
        ensures
            !Self::valid_public_key(public_key.bytes()) ==> verified matches Err(
                QraiopError::InvalidKey(_),
            ),
            verified matches Ok(accepted) ==> accepted == Self::accepts(
                public_key.bytes(),
                message@,
                signature.bytes(),
            ),
            verified matches Err(QraiopError::SignatureVerificationFailed) ==> {
                &&& Self::valid_public_key(public_key.bytes())
                &&& Self::valid_signature(signature.bytes())
                &&& !Self::accepts(public_key.bytes(), message@, signature.bytes())
            },
    ;

    /// The security level of the parameter set.
    fn security_level() -> (level: SecurityLevel)
        ensures
            level == Self::spec_security_level(),
    ;

    /// The name of the parameter set.
    fn algorithm_name() -> (name: &'static str)
        ensures
            name@ == Self::spec_algorithm_name(),
    ;
}

/// A scheme accepts its own signatures: where `keypair` made the two keys and
/// `sign` made `signature` of `message` with the secret one, `verify` with
/// the public one, if it gives a verdict, accepts, and it does not report
/// `SignatureVerificationFailed`.
pub proof fn lemma_own_signature_is_accepted<S: DigitalSignature>(
    public_key: S::PublicKey,
    secret_key: S::SecretKey,
    message: &[u8],
    signature: S::Signature,
    verified: Result<bool, QraiopError>,
)
    requires
        call_ensures(S::keypair, (), Ok::<_, QraiopError>((public_key, secret_key))),
        call_ensures(S::sign, (&secret_key, message), Ok::<_, QraiopError>(signature)),
        call_ensures(S::verify, (&public_key, message, &signature), verified),
    ensures
        verified matches Ok(accepted) ==> accepted,
        !(verified matches Err(QraiopError::SignatureVerificationFailed)),
{
    assert(S::key_pair(public_key.bytes(), secret_key.bytes()));
    assert(S::accepts(public_key.bytes(), message@, signature.bytes()));
}

/// A signature scheme whose keys sign a bounded number of times. Such a
/// scheme counts the signatures of each key and answers `sign` with a
/// `CryptoError` once the count is used up.
pub trait HashBasedSignature: DigitalSignature {
    /// How many signatures a fresh key is good for.
    open spec fn spec_max_signatures() -> u64 {
        arbitrary()
    }

    /// How many signatures `secret_key` is still good for: never more than a
    /// fresh key.
    fn signatures_remaining(secret_key: &Self::SecretKey) -> (remaining: Result<u64, QraiopError>)
        ensures
            remaining matches Ok(count) ==> count <= Self::spec_max_signatures(),
    ;

    /// How many signatures a fresh key is good for.
    fn max_signatures() -> (count: u64)
        ensures
            count == Self::spec_max_signatures(),
    ;
}

/// The signatures that a key of a hash-based scheme is still good for. An
/// implementation keeps one with each secret key and spends from it before it
/// signs.
#[derive(Debug)]
pub struct SigningBudget {
    max: u64,
    remaining: u64,
}

impl SigningBudget {
    #[verifier::type_invariant]
    spec fn never_more_than_fresh(&self) -> bool {
        self.remaining <= self.max
    }

    /// How many signatures the key was good for when it was fresh.
    pub closed spec fn spec_max(&self) -> nat {
        self.max as nat
    }

    /// How many signatures the key is still good for.
    pub closed spec fn spec_remaining(&self) -> nat {
        self.remaining as nat
    }

    /// The budget after one more signature; `None` where nothing is left.
    pub closed spec fn spec_spend(self) -> Option<SigningBudget> {
        if self.remaining > 0 {
            Some(SigningBudget { max: self.max, remaining: (self.remaining - 1) as u64 })
        } else {
            None
        }
    }

    /// The budget after `count` more signatures; `None` where it does not
    /// last that long.
    pub open spec fn spec_spend_many(self, count: nat) -> Option<SigningBudget>
        decreases count,
    {
        if count == 0 {
            Some(self)
        } else {
            match self.spec_spend() {
                Some(rest) => rest.spec_spend_many((count - 1) as nat),
                None => None,
            }
        }
    }

    /// One signature takes one from what is left and nothing from what a
    /// fresh key has, and is refused exactly where nothing is left.
    pub proof fn lemma_spend(self)
        ensures
            self.spec_spend() is Some <==> self.spec_remaining() > 0,
            self.spec_spend() matches Some(rest) ==> rest.spec_remaining() + 1
                == self.spec_remaining() && rest.spec_max() == self.spec_max(),
    {
    }

    /// A budget lasts for exactly as many signatures as it has left: so many
    /// succeed, one after the other, and take one each.
    pub proof fn lemma_budget_is_exact(self, count: nat)
        ensures
            self.spec_spend_many(count) is Some <==> count <= self.spec_remaining(),
            self.spec_spend_many(count) matches Some(rest) ==> rest.spec_remaining() + count
                == self.spec_remaining() && rest.spec_max() == self.spec_max(),
        decreases count,
    {
        if count > 0 {
            if let Some(rest) = self.spec_spend() {
                rest.lemma_budget_is_exact((count - 1) as nat);
            }
        }
    }

    /// After as many signatures as the budget has left, the next one is
    /// refused.
    pub proof fn lemma_budget_runs_out(self)
        ensures
            self.spec_spend_many(self.spec_remaining()) matches Some(rest) && rest.spec_spend()
                is None,
            self.spec_spend_many(self.spec_remaining() + 1) is None,
    {
        self.lemma_budget_is_exact(self.spec_remaining());
        self.lemma_budget_is_exact(self.spec_remaining() + 1);
    }

    /// The budget of a fresh key that is good for `max` signatures.
    pub fn new(max: u64) -> (budget: Self)
        ensures
            budget.spec_max() == max,
            budget.spec_remaining() == max,
    {
        SigningBudget { max, remaining: max }
    }

    /// How many signatures the key was good for when it was fresh.
    pub fn max_signatures(&self) -> (count: u64)
        ensures
            count == self.spec_max(),
    {
        self.max
    }

    /// How many signatures the key is still good for: never more than when
    /// it was fresh.
    pub fn signatures_remaining(&self) -> (count: u64)
        ensures
            count == self.spec_remaining(),
            count <= self.spec_max(),
    {
        proof {
            use_type_invariant(self);
        }
        self.remaining
    }

    /// Takes one signature from the budget. Where nothing is left the budget
    /// stays as it is and the failure is a `CryptoError`.
    pub fn spend(&mut self) -> (spent: Result<(), QraiopError>)
        ensures
            match old(self).spec_spend() {
                Some(rest) => spent is Ok && *final(self) == rest,
                None => spent matches Err(QraiopError::CryptoError(_)) && *final(self) == *old(
                    self,
                ),
            },
    {
        proof {
            use_type_invariant(&*self);
        }
        if self.remaining > 0 {
            self.remaining = self.remaining - 1;
            Ok(())
        } else {
            Err(QraiopError::CryptoError(String::from_str("signing budget exhausted")))
        }
    }
}

/// What one run of an algorithm cost: the time of each step in whole
/// nanoseconds, and the size of each artifact in bytes. What the kind of
/// algorithm does not have is zero.
#[derive(Debug)]
pub struct PerformanceMetrics {
    pub algorithm: String,
    pub security_level: String,
    pub keypair_time_ns: u128,
    pub sign_time_ns: u128,
    pub verify_time_ns: u128,
    pub encap_time_ns: u128,
    pub decap_time_ns: u128,
    pub public_key_size: usize,
    pub secret_key_size: usize,
    pub signature_size: usize,
    pub ciphertext_size: usize,
}

impl Clone for PerformanceMetrics {
    fn clone(&self) -> (copy: Self)
        ensures
            copy.algorithm@ == self.algorithm@,
            copy.security_level@ == self.security_level@,
            copy.keypair_time_ns == self.keypair_time_ns,
            copy.sign_time_ns == self.sign_time_ns,
            copy.verify_time_ns == self.verify_time_ns,
            copy.encap_time_ns == self.encap_time_ns,
            copy.decap_time_ns == self.decap_time_ns,
            copy.public_key_size == self.public_key_size,
            copy.secret_key_size == self.secret_key_size,
            copy.signature_size == self.signature_size,
            copy.ciphertext_size == self.ciphertext_size,
    {
        PerformanceMetrics {
            algorithm: self.algorithm.clone(),
            security_level: self.security_level.clone(),
            keypair_time_ns: self.keypair_time_ns,
            sign_time_ns: self.sign_time_ns,
            verify_time_ns: self.verify_time_ns,
            encap_time_ns: self.encap_time_ns,
            decap_time_ns: self.decap_time_ns,
            public_key_size: self.public_key_size,
            secret_key_size: self.secret_key_size,
            signature_size: self.signature_size,
            ciphertext_size: self.ciphertext_size,
        }
    }
}

impl PerformanceMetrics {
    /// A record of a key encapsulation mechanism has nothing of signatures.
    pub open spec fn is_kem_record(&self) -> bool {
        &&& self.sign_time_ns == 0
        &&& self.verify_time_ns == 0
        &&& self.signature_size == 0
    }

    /// A record of a signature scheme has nothing of encapsulation.
    pub open spec fn is_signature_record(&self) -> bool {
        &&& self.encap_time_ns == 0
        &&& self.decap_time_ns == 0
        &&& self.ciphertext_size == 0
    }
}

/// The message that every signature scheme is measured on.
pub const CANONICAL_MESSAGE: &'static str = "QRAIOP quantum-resistant test message";

/// The error of `bincode`, carried as it is.
#[verifier::external_type_specification]
#[verifier::external_body]
pub struct ExCodecError(bincode::ErrorKind);

/// What `bincode` writes for a string of bytes: the number of bytes as eight
/// bytes, lowest first, and then the bytes themselves.
pub open spec fn bincode_encoding(bytes: Seq<u8>) -> Seq<u8> {
    vstd::bytes::spec_u64_to_le_bytes(bytes.len() as u64) + bytes
}

/// Calls `bincode::serialize` on a slice of bytes. In the configuration of
/// that function a sequence is written as its length, a `u64` of fixed width
/// in little-endian order, followed by its items, and a byte is written as it
/// is. On a slice of bytes the call cannot fail: that configuration sets no
/// limit on the size, a slice hands over its length, and the bytes are
/// written to a vector.
#[verifier::external_body]
fn bincode_serialize(bytes: &[u8]) -> (encoded: Result<Vec<u8>, Box<bincode::ErrorKind>>)
    ensures
        encoded is Ok,
        encoded matches Ok(written) ==> written@ == bincode_encoding(bytes@),
{
    bincode::serialize(bytes)
}

/// The text `bincode::ErrorKind` displays as.
#[verifier::external_body]
fn codec_error_text(error: &Box<bincode::ErrorKind>) -> (text: String) {
    error.to_string()
}

/// Turns the answer of the codec into a size: the length of what it wrote,
/// or a `SerializationError` where it failed.
pub fn encoded_size(encoded: Result<Vec<u8>, Box<bincode::ErrorKind>>) -> (size: Result<
    usize,
    QraiopError,
>)
    ensures
        match encoded {
            Ok(written) => size matches Ok(count) && count == written@.len(),
            Err(_) => size matches Err(QraiopError::SerializationError(_)),
        },
{
    match encoded {
        Ok(written) => Ok(written.len()),
        Err(error) => Err(QraiopError::SerializationError(codec_error_text(&error))),
    }
}

/// The number of bytes an artifact takes when it is serialized: eight more
/// than it has. The codec does not fail on bytes, so the size is always
/// given.
pub fn serialized_size(bytes: &[u8]) -> (size: Result<usize, QraiopError>)
    ensures
        size matches Ok(count) && count == bytes@.len() + 8,
{
    proof {
        vstd::bytes::lemma_auto_spec_u64_to_from_le_bytes();
    }
    encoded_size(bincode_serialize(bytes))
}

/// The record of one run of a key encapsulation mechanism, made of what was
/// measured: every field as given, and nothing of signatures.
pub fn kem_metrics(
    algorithm: &str,
    level: SecurityLevel,
    keypair_time_ns: u128,
    encap_time_ns: u128,
    decap_time_ns: u128,
    public_key_size: usize,
    secret_key_size: usize,
    ciphertext_size: usize,
) -> (record: PerformanceMetrics)
    ensures
        record.algorithm@ == algorithm@,
        record.security_level@ == level.label(),
        record.keypair_time_ns == keypair_time_ns,
        record.encap_time_ns == encap_time_ns,
        record.decap_time_ns == decap_time_ns,
        record.public_key_size == public_key_size,
        record.secret_key_size == secret_key_size,
        record.ciphertext_size == ciphertext_size,
        record.is_kem_record(),
{
    PerformanceMetrics {
        algorithm: String::from_str(algorithm),
        security_level: level.to_string(),
        keypair_time_ns,
        sign_time_ns: 0,
        verify_time_ns: 0,
        encap_time_ns,
        decap_time_ns,
        public_key_size,
        secret_key_size,
        signature_size: 0,
        ciphertext_size,
    }
}

/// The record of one run of a signature scheme, made of what was measured:
/// every field as given, and nothing of encapsulation.
pub fn signature_metrics(
    algorithm: &str,
    level: SecurityLevel,
    keypair_time_ns: u128,
    sign_time_ns: u128,
    verify_time_ns: u128,
    public_key_size: usize,
    secret_key_size: usize,
    signature_size: usize,
) -> (record: PerformanceMetrics)
    ensures
        record.algorithm@ == algorithm@,
        record.security_level@ == level.label(),
        record.keypair_time_ns == keypair_time_ns,
        record.sign_time_ns == sign_time_ns,
        record.verify_time_ns == verify_time_ns,
        record.public_key_size == public_key_size,
        record.secret_key_size == secret_key_size,
        record.signature_size == signature_size,
        record.is_signature_record(),
{
    PerformanceMetrics {
        algorithm: String::from_str(algorithm),
        security_level: level.to_string(),
        keypair_time_ns,
        sign_time_ns,
        verify_time_ns,
        encap_time_ns: 0,
        decap_time_ns: 0,
        public_key_size,
        secret_key_size,
        signature_size,
        ciphertext_size: 0,
    }
}

/// That `keypair` of the mechanism can answer with these two keys.
pub open spec fn kem_keys<K: KeyEncapsulation>(
    public_key: K::PublicKey,
    secret_key: K::SecretKey,
) -> bool {
    call_ensures(K::keypair, (), Ok::<_, QraiopError>((public_key, secret_key)))
}

/// That a run of the mechanism can come as far as this: `keypair` answers
/// with the two keys, and `encapsulate`, given the public key, with
/// `ciphertext` and the secret `sent`.
pub open spec fn kem_sealed<K: KeyEncapsulation>(
    public_key: K::PublicKey,
    secret_key: K::SecretKey,
    ciphertext: K::Ciphertext,
    sent: K::SharedSecret,
) -> bool {
    &&& kem_keys::<K>(public_key, secret_key)
    &&& call_ensures(K::encapsulate, (&public_key,), Ok::<_, QraiopError>((ciphertext, sent)))
}

/// That a whole run of the mechanism can go like this: `keypair` answers with
/// the two keys, `encapsulate`, given the public key, with `ciphertext` and
/// the secret `sent`, and `decapsulate`, given the secret key and that
/// ciphertext, with the secret `received`.
pub open spec fn kem_run<K: KeyEncapsulation>(
    public_key: K::PublicKey,
    secret_key: K::SecretKey,
    ciphertext: K::Ciphertext,
    sent: K::SharedSecret,
    received: K::SharedSecret,
) -> bool {
    &&& kem_sealed::<K>(public_key, secret_key, ciphertext, sent)
    &&& call_ensures(
        K::decapsulate,
        (&secret_key, &ciphertext),
        Ok::<_, QraiopError>(received),
    )
}

/// That a run of the mechanism can end in `error`: it is what the first step
/// that failed answered, each step before it having succeeded and handed on
/// what it made.
pub open spec fn kem_run_fails<K: KeyEncapsulation>(error: QraiopError) -> bool {
    ||| call_ensures(
        K::keypair,
        (),
        Err::<(K::PublicKey, K::SecretKey), QraiopError>(error),
    )
    ||| exists|public_key: K::PublicKey, secret_key: K::SecretKey| #[trigger]
        kem_keys::<K>(public_key, secret_key) && call_ensures(
            K::encapsulate,
            (&public_key,),
            Err::<(K::Ciphertext, K::SharedSecret), QraiopError>(error),
        )
    ||| exists|
        public_key: K::PublicKey,
        secret_key: K::SecretKey,
        ciphertext: K::Ciphertext,
        sent: K::SharedSecret,
    | #[trigger]
        kem_sealed::<K>(public_key, secret_key, ciphertext, sent) && call_ensures(
            K::decapsulate,
            (&secret_key, &ciphertext),
            Err::<K::SharedSecret, QraiopError>(error),
        )
}

/// Runs one key encapsulation mechanism once (a fresh pair of keys, one
/// encapsulation to its public key, one decapsulation of that ciphertext
/// with its secret key) and records what each step cost. The record names
/// the mechanism and its level, holds nothing of signatures, and gives the
/// sizes of the artifacts of that run: the public key and the ciphertext as
/// the codec sizes them, eight bytes more than they have, and the secret key
/// by its own length. The first failure of a step ends the run and is
/// returned as it is; a run whose three steps succeed is recorded. Every
/// secret of the run is wiped before the function returns.
pub fn benchmark_kem<K: KeyEncapsulation>() -> (outcome: Result<PerformanceMetrics, QraiopError>)
    ensures
        match outcome {
            Ok(record) => {
                &&& record.algorithm@ == K::spec_algorithm_name()
                &&& record.security_level@ == K::spec_security_level().label()
                &&& record.is_kem_record()
                &&& exists|
                    public_key: K::PublicKey,
                    secret_key: K::SecretKey,
                    ciphertext: K::Ciphertext,
                    sent: K::SharedSecret,
                    received: K::SharedSecret,
                | #[trigger]
                    kem_run::<K>(public_key, secret_key, ciphertext, sent, received) && {
                        &&& record.public_key_size == public_key.bytes().len() + 8
                        &&& record.secret_key_size == secret_key.bytes().len()
                        &&& record.ciphertext_size == ciphertext.bytes().len() + 8
                    }
            },
            Err(error) => kem_run_fails::<K>(error),
        },
{
    let timer = BenchmarkTimer::new();
    let (public_key, mut secret_key) = match K::keypair() {
        Ok(pair) => pair,
        Err(error) => {
            return Err(error);
        },
    };
    let keypair_time = timer.elapsed_nanos();
    let ghost made_key = secret_key;
    assert(kem_keys::<K>(public_key, made_key));

    let timer = BenchmarkTimer::new();
    let (ciphertext, mut sent) = match K::encapsulate(&public_key) {
        Ok(sealed) => sealed,
        Err(error) => {
            secret_key.zeroize();
            return Err(error);
        },
    };
    let encap_time = timer.elapsed_nanos();
    let ghost made_secret = sent;
    assert(kem_sealed::<K>(public_key, made_key, ciphertext, made_secret));

    let timer = BenchmarkTimer::new();
    let opened = K::decapsulate(&secret_key, &ciphertext);
    let decap_time = timer.elapsed_nanos();
    sent.zeroize();
    let ghost opened_secret;
    match opened {
        Ok(mut received) => {
            proof {
                opened_secret = received;
            }
            received.zeroize();
        },
        Err(error) => {
            secret_key.zeroize();
            return Err(error);
        },
    }
    assert(kem_run::<K>(public_key, made_key, ciphertext, made_secret, opened_secret));

    let secret_key_size = secret_key.as_bytes().len();
    secret_key.zeroize();
    let public_key_size = match serialized_size(public_key.as_bytes()) {
        Ok(size) => size,
        Err(error) => {
            return Err(error);
        },
    };
    let ciphertext_size = match serialized_size(ciphertext.as_bytes()) {
        Ok(size) => size,
        Err(error) => {
            return Err(error);
        },
    };
    Ok(
        kem_metrics(
            K::algorithm_name(),
            K::security_level(),
            keypair_time,
            encap_time,
            decap_time,
            public_key_size,
            secret_key_size,
            ciphertext_size,
        ),
    )
}

/// The bytes of [`CANONICAL_MESSAGE`].
pub open spec fn canonical_message_bytes() -> Seq<u8> {
    CANONICAL_MESSAGE.spec_bytes()
}

/// That `keypair` of the scheme can answer with these two keys.
pub open spec fn signature_keys<S: DigitalSignature>(
    public_key: S::PublicKey,
    secret_key: S::SecretKey,
) -> bool {
    call_ensures(S::keypair, (), Ok::<_, QraiopError>((public_key, secret_key)))
}

/// That a run of the scheme can come as far as this: `keypair` answers with
/// the two keys, and `sign`, given the secret key and the canonical message,
/// with `signature`.
pub open spec fn signature_made<S: DigitalSignature>(
    public_key: S::PublicKey,
    secret_key: S::SecretKey,
    message: &[u8],
    signature: S::Signature,
) -> bool {
    &&& signature_keys::<S>(public_key, secret_key)
    &&& message@ == canonical_message_bytes()
    &&& call_ensures(S::sign, (&secret_key, message), Ok::<_, QraiopError>(signature))
}

/// That a whole run of the scheme can go like this: `keypair` answers with
/// the two keys, `sign`, given the secret key and the canonical message, with
/// `signature`, and `verify`, given the public key, that message and that
/// signature, with the verdict `accepted`.
pub open spec fn signature_run<S: DigitalSignature>(
    public_key: S::PublicKey,
    secret_key: S::SecretKey,
    message: &[u8],
    signature: S::Signature,
    accepted: bool,
) -> bool {
    &&& signature_made::<S>(public_key, secret_key, message, signature)
    &&& call_ensures(
        S::verify,
        (&public_key, message, &signature),
        Ok::<_, QraiopError>(accepted),
    )
}

/// That a run of the scheme can end in `error`: it is what the first step
/// that failed answered, each step before it having succeeded and handed on
/// what it made.
pub open spec fn signature_run_fails<S: DigitalSignature>(error: QraiopError) -> bool {
    ||| call_ensures(
        S::keypair,
        (),
        Err::<(S::PublicKey, S::SecretKey), QraiopError>(error),
    )
    ||| exists|public_key: S::PublicKey, secret_key: S::SecretKey, message: &[u8]| #[trigger]
        signature_keys::<S>(public_key, secret_key) && message@ == canonical_message_bytes()
            && #[trigger] call_ensures(
            S::sign,
            (&secret_key, message),
            Err::<S::Signature, QraiopError>(error),
        )
    ||| exists|
        public_key: S::PublicKey,
        secret_key: S::SecretKey,
        message: &[u8],
        signature: S::Signature,
    | #[trigger]
        signature_made::<S>(public_key, secret_key, message, signature) && call_ensures(
            S::verify,
            (&public_key, message, &signature),
            Err::<bool, QraiopError>(error),
        )
}

/// Runs one signature scheme once (a fresh pair of keys, one signature of
/// [`CANONICAL_MESSAGE`] with its secret key, one verification of that
/// signature with its public key) and records what each step cost. The
/// record names the scheme and its level, holds nothing of encapsulation, and
/// gives the sizes of the artifacts of that run: the public key and the
/// signature as the codec sizes them, eight bytes more than they have, and
/// the secret key by its own length. The first failure of a step ends the
/// run and is returned as it is; a run whose three steps succeed is recorded.
/// The verdict of the verification is not looked at: it is an acceptance,
/// since the scheme signed with the key of the pair. The secret key is wiped
/// before the function returns.
pub fn benchmark_signature<S: DigitalSignature>() -> (outcome: Result<
    PerformanceMetrics,
    QraiopError,
>)
    ensures
        match outcome {
            Ok(record) => {
                &&& record.algorithm@ == S::spec_algorithm_name()
                &&& record.security_level@ == S::spec_security_level().label()
                &&& record.is_signature_record()
                &&& exists|
                    public_key: S::PublicKey,
                    secret_key: S::SecretKey,
                    message: &[u8],
                    signature: S::Signature,
                | #[trigger]
                    signature_run::<S>(public_key, secret_key, message, signature, true) && {
                        &&& record.public_key_size == public_key.bytes().len() + 8
                        &&& record.secret_key_size == secret_key.bytes().len()
                        &&& record.signature_size == signature.bytes().len() + 8
                    }
            },
            Err(error) => signature_run_fails::<S>(error),
        },
{
    let message = CANONICAL_MESSAGE.as_bytes();

    let timer = BenchmarkTimer::new();
    let (public_key, mut secret_key) = match S::keypair() {
        Ok(pair) => pair,
        Err(error) => {
            return Err(error);
        },
    };
    let keypair_time = timer.elapsed_nanos();
    let ghost made_key = secret_key;
    assert(signature_keys::<S>(public_key, made_key));

    let timer = BenchmarkTimer::new();
    let signed = S::sign(&secret_key, message);
    let sign_time = timer.elapsed_nanos();
    let secret_key_size = secret_key.as_bytes().len();
    secret_key.zeroize();
    let signature = match signed {
        Ok(signature) => signature,
        Err(error) => {
            return Err(error);
        },
    };
    assert(signature_made::<S>(public_key, made_key, message, signature));

    let timer = BenchmarkTimer::new();
    let accepted = match S::verify(&public_key, message, &signature) {
        Ok(accepted) => accepted,
        Err(error) => {
            return Err(error);
        },
    };
    let verify_time = timer.elapsed_nanos();
    assert(S::key_pair(public_key.bytes(), made_key.bytes()));
    assert(accepted);
    assert(signature_run::<S>(public_key, made_key, message, signature, true));

    let public_key_size = match serialized_size(public_key.as_bytes()) {
        Ok(size) => size,
        Err(error) => {
            return Err(error);
        },
    };
    let signature_size = match serialized_size(signature.as_bytes()) {
        Ok(size) => size,
        Err(error) => {
            return Err(error);
        },
    };
    Ok(
        signature_metrics(
            S::algorithm_name(),
            S::security_level(),
            keypair_time,
            sign_time,
            verify_time,
            public_key_size,
            secret_key_size,
            signature_size,
        ),
    )
}

} // verus!
