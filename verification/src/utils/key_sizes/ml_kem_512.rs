//! Byte lengths of ML-KEM-512 artifacts.

use vstd::prelude::*;

verus! {

pub const PUBLIC_KEY_SIZE: usize = 800;

pub const SECRET_KEY_SIZE: usize = 1632;

pub const CIPHERTEXT_SIZE: usize = 768;

pub const SHARED_SECRET_SIZE: usize = 32;

} // verus!
