//! Quantum-resistant cryptography behind one interface.
//!
//! Key encapsulation and signature families are reached through the traits
//! of [`pqc`]; secret material lives in containers that wipe themselves, and
//! secret-derived bytes are compared in constant time only.

use vstd::prelude::*;
use vstd::string::*;

pub mod hybrid;
pub mod pqc;
pub mod utils;

pub use hybrid::{HybridKem, HybridSignature};
pub use pqc::{DigitalSignature, HashBasedSignature, KeyEncapsulation};

verus! {

/// Version of this library.
pub const VERSION: &'static str = "0.1.0";

/// The NIST security categories an algorithm family can declare.
#[derive(Debug, Clone, Copy, PartialEq, Eq, Structural)]
pub enum SecurityLevel {
    Level1,
    Level3,
    Level5,
}

impl SecurityLevel {
    /// The NIST category number of this level.
    pub open spec fn spec_category(self) -> nat {
        match self {
            SecurityLevel::Level1 => 1,
            SecurityLevel::Level3 => 3,
            SecurityLevel::Level5 => 5,
        }
    }

    /// The text this level is shown as.
    pub open spec fn label(self) -> Seq<char> {
        match self {
            SecurityLevel::Level1 => "Level-1"@,
            SecurityLevel::Level3 => "Level-3"@,
            SecurityLevel::Level5 => "Level-5"@,
        }
    }

    /// The NIST category number of this level.
    pub fn category(&self) -> (n: u8)
        ensures
            n as nat == self.spec_category(),
    {
        match self {
            SecurityLevel::Level1 => 1,
            SecurityLevel::Level3 => 3,
            SecurityLevel::Level5 => 5,
        }
    }

    /// Renders the level as `Level-1`, `Level-3` or `Level-5`.
    pub fn to_string(&self) -> (text: String)
        ensures
            text@ == self.label(),
    {
        match self {
            SecurityLevel::Level1 => String::from_str("Level-1"),
            SecurityLevel::Level3 => String::from_str("Level-3"),
            SecurityLevel::Level5 => String::from_str("Level-5"),
        }
    }
}

/// Everything an operation of this library can fail with.
#[derive(Debug)]
pub enum QraiopError {
    /// An algorithm failed for a reason no other kind covers.
    CryptoError(String),
    /// A supplied key has the wrong length or encoding.
    InvalidKey(String),
    /// The requested algorithm name is not known.
    UnsupportedAlgorithm(String),
    /// A well-formed signature does not match message and key.
    SignatureVerificationFailed,
    /// A ciphertext is malformed or was rejected while decapsulating.
    EncapsulationFailed(String),
    /// Encoding or decoding an artifact failed.
    SerializationError(String),
}

impl QraiopError {
    /// The text this error is shown as: a fixed phrase for its kind, followed
    /// by the context it carries.
    pub open spec fn message(&self) -> Seq<char> {
        match self {
            QraiopError::CryptoError(context) => "Cryptographic operation failed: "@ + context@,
            QraiopError::InvalidKey(context) => "Invalid key format: "@ + context@,
            QraiopError::UnsupportedAlgorithm(name) => "Algorithm not supported: "@ + name@,
            QraiopError::SignatureVerificationFailed => "Signature verification failed"@,
            QraiopError::EncapsulationFailed(context) => "Key encapsulation failed: "@ + context@,
            QraiopError::SerializationError(context) => "Serialization error: "@ + context@,
        }
    }

    /// Renders the error for a reader.
    pub fn to_string(&self) -> (text: String)
        ensures
            text@ == self.message(),
    {
        match self {
            QraiopError::CryptoError(context) => String::from_str(
                "Cryptographic operation failed: ",
            ).concat(context.as_str()),
            QraiopError::InvalidKey(context) => String::from_str("Invalid key format: ").concat(
                context.as_str(),
            ),
            QraiopError::UnsupportedAlgorithm(name) => String::from_str(
                "Algorithm not supported: ",
            ).concat(name.as_str()),
            QraiopError::SignatureVerificationFailed => String::from_str(
                "Signature verification failed",
            ),
            QraiopError::EncapsulationFailed(context) => String::from_str(
                "Key encapsulation failed: ",
            ).concat(context.as_str()),
            QraiopError::SerializationError(context) => String::from_str(
                "Serialization error: ",
            ).concat(context.as_str()),
        }
    }
}

/// The algorithm names this library knows, in the order [`info`] lists them.
pub const ALGORITHMS: [&'static str; 9] = [
    "ML-KEM-512",
    "ML-KEM-768",
    "ML-KEM-1024",
    "ML-DSA-44",
    "ML-DSA-65",
    "ML-DSA-87",
    "SLH-DSA-128s",
    "SLH-DSA-192s",
    "SLH-DSA-256s",
];

/// What the library reports about itself.
#[derive(Debug)]
pub struct LibraryInfo {
    pub version: String,
    pub supported_algorithms: Vec<String>,
    pub nist_approved: bool,
    pub quantum_resistant: bool,
}

impl Clone for LibraryInfo {
    fn clone(&self) -> (copy: Self)
        ensures
            copy.version@ == self.version@,
            copy.supported_algorithms@.len() == self.supported_algorithms@.len(),
            forall|i: int|
                0 <= i < self.supported_algorithms@.len()
                    ==> #[trigger] copy.supported_algorithms@[i]@
                    == self.supported_algorithms@[i]@,
            copy.nist_approved == self.nist_approved,
            copy.quantum_resistant == self.quantum_resistant,
    {
        let mut names: Vec<String> = Vec::new();
        let mut i: usize = 0;
        while i < self.supported_algorithms.len()
            invariant
                i <= self.supported_algorithms@.len(),
                names@.len() == i,
                forall|j: int|
                    0 <= j < i ==> #[trigger] names@[j]@ == self.supported_algorithms@[j]@,
            decreases self.supported_algorithms@.len() - i,
        {
            names.push(self.supported_algorithms[i].clone());
            i = i + 1;
        }
        LibraryInfo {
            version: self.version.clone(),
            supported_algorithms: names,
            nist_approved: self.nist_approved,
            quantum_resistant: self.quantum_resistant,
        }
    }
}

/// The names of [`ALGORITHMS`] as character sequences.
pub open spec fn algorithm_names() -> Seq<Seq<char>> {
    Seq::new(9, |i: int| ALGORITHMS[i]@)
}

/// Describes the library: its version, every supported algorithm by name, and
/// the two facts that all of them are NIST-approved and quantum-resistant.
pub fn info() -> (report: LibraryInfo)
    ensures
        report.version@ == VERSION@,
        report.supported_algorithms@.len() == algorithm_names().len(),
        forall|i: int|
            0 <= i < algorithm_names().len() ==> #[trigger] report.supported_algorithms@[i]@
                == algorithm_names()[i],
        report.nist_approved,
        report.quantum_resistant,
{
    let mut names: Vec<String> = Vec::new();
    let mut i: usize = 0;
    while i < 9
        invariant
            i <= 9,
            names@.len() == i,
            forall|j: int| 0 <= j < i ==> #[trigger] names@[j]@ == algorithm_names()[j],
        decreases 9 - i,
    {
        names.push(String::from_str(ALGORITHMS[i]));
        i = i + 1;
    }
    LibraryInfo {
        version: String::from_str(VERSION),
        supported_algorithms: names,
        nist_approved: true,
        quantum_resistant: true,
    }
}

} // verus!
