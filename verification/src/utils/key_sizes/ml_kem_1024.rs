//! Byte lengths of ML-KEM-1024 artifacts.

use vstd::prelude::*;

verus! {

pub const PUBLIC_KEY_SIZE: usize = 1568;

pub const SECRET_KEY_SIZE: usize = 3168;

pub const CIPHERTEXT_SIZE: usize = 1568;

pub const SHARED_SECRET_SIZE: usize = 32;

} // verus!
