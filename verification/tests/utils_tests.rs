use qraiop_crypto::utils::{
    bytes_to_hex, constant_time_eq, hex_to_bytes, secure_random, BenchmarkTimer,
};
use qraiop_crypto::QraiopError;

#[test]
fn test_hex_conversion() {
    let data = vec![0x01, 0x23, 0x45, 0x67, 0x89, 0xab, 0xcd, 0xef];
    let hex = bytes_to_hex(&data);
    assert_eq!(hex, "0123456789abcdef");

    let decoded = hex_to_bytes(&hex).unwrap();
    assert_eq!(decoded, data);
}

#[test]
fn test_secure_random() {
    let data1 = secure_random(32);
    let data2 = secure_random(32);
    assert_eq!(data1.len(), 32);
    assert_eq!(data2.len(), 32);
    assert_ne!(data1, data2); // Should be different
}

#[test]
fn test_constant_time_eq() {
    let a = vec![1, 2, 3, 4];
    let b = vec![1, 2, 3, 4];
    let c = vec![1, 2, 3, 5];

    assert!(constant_time_eq(&a, &b));
    assert!(!constant_time_eq(&a, &c));
    assert!(!constant_time_eq(&a, &[1, 2, 3])); // Different lengths
}

#[test]
fn test_benchmark_timer() {
    let timer = BenchmarkTimer::new();
    let clock = std::time::Instant::now();
    while clock.elapsed() < std::time::Duration::from_millis(10) {
        std::hint::spin_loop();
    }
    let elapsed = timer.elapsed_nanos();
    let bound = clock.elapsed().as_nanos() + 1_000_000_000;
    assert!(elapsed >= 10_000_000);
    assert!(elapsed < bound);
}

#[test]
fn a_stopwatch_does_not_run_backwards() {
    let timer = BenchmarkTimer::new();
    let first = timer.elapsed_nanos();
    let second = timer.elapsed_nanos();
    assert!(second >= first);
    let later = BenchmarkTimer::default();
    assert!(later.elapsed_nanos() <= timer.elapsed_nanos());
}

#[test]
fn hex_of_no_bytes_is_empty_text() {
    assert_eq!(bytes_to_hex(&[]), "");
    assert_eq!(hex_to_bytes("").unwrap(), Vec::<u8>::new());
}

#[test]
fn hex_decoding_accepts_both_cases() {
    assert_eq!(hex_to_bytes("00ff").unwrap(), vec![0x00, 0xff]);
    assert_eq!(hex_to_bytes("AbCdEf").unwrap(), vec![0xab, 0xcd, 0xef]);
    assert_eq!(bytes_to_hex(&[0xab, 0xcd, 0xef]), "abcdef");
}

#[test]
fn hex_of_odd_length_is_a_serialization_error() {
    let outcome = hex_to_bytes("abc");
    assert!(matches!(outcome, Err(QraiopError::SerializationError(_))));
}

#[test]
fn hex_with_a_foreign_character_is_a_serialization_error() {
    assert!(matches!(hex_to_bytes("0g"), Err(QraiopError::SerializationError(_))));
    assert!(matches!(hex_to_bytes("é0"), Err(QraiopError::SerializationError(_))));
    assert!(matches!(hex_to_bytes("é"), Err(QraiopError::SerializationError(_))));
}

#[test]
fn hex_round_trip_on_every_byte_value() {
    let all: Vec<u8> = (0..=255u8).collect();
    let text = bytes_to_hex(&all);
    assert_eq!(text.len(), 512);
    assert_eq!(hex_to_bytes(&text).unwrap(), all);
}

#[test]
fn constant_time_eq_of_a_string_with_itself() {
    let a = secure_random(64);
    assert!(constant_time_eq(&a, &a));
    assert!(constant_time_eq(&[], &[]));
}

#[test]
fn constant_time_eq_sees_a_difference_at_any_position() {
    let a = vec![7u8; 16];
    for position in 0..16 {
        let mut b = a.clone();
        b[position] ^= 1;
        assert!(!constant_time_eq(&a, &b));
    }
}

#[test]
fn secure_random_of_zero_bytes_is_empty() {
    assert!(secure_random(0).is_empty());
    assert_eq!(secure_random(1000).len(), 1000);
}
