//! Byte lengths of ML-KEM-768 artifacts.

use vstd::prelude::*;

verus! {

pub const PUBLIC_KEY_SIZE: usize = 1184;

pub const SECRET_KEY_SIZE: usize = 2400;

pub const CIPHERTEXT_SIZE: usize = 1088;

pub const SHARED_SECRET_SIZE: usize = 32;

} // verus!
