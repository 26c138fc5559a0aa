//! Helpers around the algorithms: hexadecimal text, random bytes,
//! constant-time comparison and a stopwatch.

use crate::QraiopError;
use vstd::prelude::*;

pub mod key_sizes;

verus! {

/// The sixteen lower-case hexadecimal digits, each at the index of its value.
pub open spec fn hex_digits() -> Seq<char> {
    "0123456789abcdef"@
}

/// The value of a hexadecimal digit, in either case; `None` for any other
/// character.
pub open spec fn hex_value(c: char) -> Option<int> {
    if '0' <= c && c <= '9' {
        Some(c as int - '0' as int)
    } else if 'a' <= c && c <= 'f' {
        Some(c as int - 'a' as int + 10)
    } else if 'A' <= c && c <= 'F' {
        Some(c as int - 'A' as int + 10)
    } else {
        None
    }
}

/// The hexadecimal text of `bytes`: two lower-case digits per byte, the high
/// half first.
pub open spec fn hex_encoding(bytes: Seq<u8>) -> Seq<char> {
    Seq::new(
        2 * bytes.len(),
        |i: int|
            if i % 2 == 0 {
                hex_digits()[bytes[i / 2] as int / 16]
            } else {
                hex_digits()[bytes[i / 2] as int % 16]
            },
    )
}

/// Whether `text` is hexadecimal text: an even number of characters, each of
/// them a hexadecimal digit.
pub open spec fn is_hex(text: Seq<char>) -> bool {
    &&& text.len() % 2 == 0
    &&& forall|i: int| 0 <= i < text.len() ==> (#[trigger] hex_value(text[i])) is Some
}

/// The bytes that hexadecimal `text` stands for.
pub open spec fn hex_decoding(text: Seq<char>) -> Seq<u8> {
    Seq::new(
        text.len() / 2,
        |i: int| (16 * hex_value(text[2 * i]).unwrap() + hex_value(text[2 * i + 1]).unwrap()) as u8,
    )
}

/// Each of the sixteen digits has its own index as value.
pub proof fn lemma_hex_digit_value(n: int)
    requires
        0 <= n < 16,
    ensures
        hex_value(hex_digits()[n]) == Some(n),
{
    reveal_strlit("0123456789abcdef");
}

/// Decoding undoes encoding: the hexadecimal text of any bytes is accepted,
/// and stands for those same bytes.
pub proof fn lemma_hex_round_trip(bytes: Seq<u8>)
    ensures
        is_hex(hex_encoding(bytes)),
        hex_decoding(hex_encoding(bytes)) == bytes,
{
    let text = hex_encoding(bytes);
    assert forall|i: int| 0 <= i < text.len() implies (#[trigger] hex_value(text[i])) is Some by {
        lemma_hex_digit_value(bytes[i / 2] as int / 16);
        lemma_hex_digit_value(bytes[i / 2] as int % 16);
    }
    assert forall|k: int| 0 <= k < bytes.len() implies hex_decoding(text)[k] == bytes[k] by {
        lemma_hex_digit_value(bytes[k] as int / 16);
        lemma_hex_digit_value(bytes[k] as int % 16);
        assert((2 * k) / 2 == k && (2 * k) % 2 == 0);
        assert((2 * k + 1) / 2 == k && (2 * k + 1) % 2 == 1);
    }
    assert(hex_decoding(text) =~= bytes);
}

/// The error of the `hex` crate, carried as it is.
#[verifier::external_type_specification]
#[verifier::external_body]
pub struct ExFromHexError(hex::FromHexError);

/// Calls `hex::encode`, which writes each byte as two digits taken from the
/// table `0123456789abcdef`, the high four bits first.
#[verifier::external_body]
fn hex_encode(bytes: &[u8]) -> (text: String)
    ensures
        text@ == hex_encoding(bytes@),
{
    hex::encode(bytes)
}

/// Calls `hex::decode`, which fails on an odd number of bytes and on any byte
/// that is not a digit `0-9`, `a-f` or `A-F`, and otherwise joins each pair of
/// digits into one byte.
#[verifier::external_body]
fn hex_decode(text: &str) -> (decoded: Result<Vec<u8>, hex::FromHexError>)
    ensures
        decoded is Ok <==> is_hex(text@),
        decoded matches Ok(bytes) ==> bytes@ == hex_decoding(text@),
{
    hex::decode(text)
}

/// The text `hex::FromHexError` displays as.
#[verifier::external_body]
fn hex_error_text(error: &hex::FromHexError) -> (text: String) {
    error.to_string()
}

/// Writes `bytes` as lower-case hexadecimal text.
pub fn bytes_to_hex(bytes: &[u8]) -> (text: String)
    ensures
        text@ == hex_encoding(bytes@),
{
    hex_encode(bytes)
}

/// Reads hexadecimal text back into bytes. Text of odd length, or with a
/// character that is no hexadecimal digit, is a `SerializationError`.
pub fn hex_to_bytes(hex_str: &str) -> (decoded: Result<Vec<u8>, QraiopError>)
    ensures
        is_hex(hex_str@) ==> (decoded matches Ok(bytes) && bytes@ == hex_decoding(hex_str@)),
        !is_hex(hex_str@) ==> decoded matches Err(QraiopError::SerializationError(_)),
{
    match hex_decode(hex_str) {
        Ok(bytes) => Ok(bytes),
        Err(error) => Err(QraiopError::SerializationError(hex_error_text(&error))),
    }
}

/// Calls `fill_bytes` on `rand::thread_rng()`, which overwrites every byte of
/// the buffer and leaves its length alone. Nothing is claimed of the bytes.
#[verifier::external_body]
fn fill_random(buffer: &mut Vec<u8>)
    ensures
        final(buffer)@.len() == old(buffer)@.len(),
{
    rand::RngCore::fill_bytes(&mut rand::thread_rng(), buffer.as_mut_slice())
}

/// Draws `size` bytes from the thread's cryptographic generator.
pub fn secure_random(size: usize) -> (bytes: Vec<u8>)
    ensures
        bytes@.len() == size,
{
    let mut bytes: Vec<u8> = Vec::new();
    bytes.resize(size, 0u8);
    fill_random(&mut bytes);
    bytes
}

/// Calls `subtle::ConstantTimeEq::ct_eq` on two byte slices and turns the
/// `Choice` into a `bool`. The choice is set exactly when the slices have one
/// length and agree in every byte; for slices of one length every byte is
/// visited whatever the bytes are.
#[verifier::external_body]
fn ct_eq_bytes(a: &[u8], b: &[u8]) -> (equal: bool)
    ensures
        equal == (a@ == b@),
{
    subtle::ConstantTimeEq::ct_eq(a, b).into()
}

/// Compares two byte strings without stopping at the first difference.
/// Strings of different lengths are unequal; strings of one length are
/// compared over their whole length.
pub fn constant_time_eq(a: &[u8], b: &[u8]) -> (equal: bool)
    ensures
        equal == (a@ == b@),
        a@.len() != b@.len() ==> !equal,
{
    if a.len() != b.len() {
        return false;
    }
    ct_eq_bytes(a, b)
}

/// A point in time of the monotonic clock, carried as it is.
#[verifier::external_type_specification]
#[verifier::external_body]
pub struct ExInstant(std::time::Instant);

/// Reads the monotonic clock with `Instant::now`.
#[verifier::external_body]
fn instant_now() -> (now: std::time::Instant) {
    std::time::Instant::now()
}

/// The time that has passed since `start`, by `Instant::elapsed`.
#[verifier::external_body]
fn instant_elapsed(start: &std::time::Instant) -> (passed: std::time::Duration) {
    start.elapsed()
}

/// The whole nanoseconds in a duration, by `Duration::as_nanos`.
#[verifier::external_body]
fn duration_nanos(duration: &std::time::Duration) -> (nanos: u128) {
    duration.as_nanos()
}

/// A stopwatch that starts when it is made.
pub struct BenchmarkTimer {
    start: std::time::Instant,
}

impl BenchmarkTimer {
    /// Starts a stopwatch at the present moment.
    pub fn new() -> (timer: Self) {
        Self { start: instant_now() }
    }

    /// Whole nanoseconds since the stopwatch was started.
    pub fn elapsed_nanos(&self) -> (nanos: u128) {
        let passed = instant_elapsed(&self.start);
        duration_nanos(&passed)
    }
}

impl Default for BenchmarkTimer {
    fn default() -> (timer: Self) {
        Self::new()
    }
}

} // verus!
