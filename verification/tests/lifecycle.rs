use std::any::Any;

use sgx_panic_unwind::envelope::{
    cleanup, payload, rust_exception_class, Envelope, LANGUAGE_ID, RUST_EXCEPTION_CLASS, VENDOR_ID,
};

#[test]
fn exception_class_is_vendor_then_language() {
    assert_eq!(rust_exception_class(), 0x4d4f5a_00_52555354);
    assert_eq!(rust_exception_class(), RUST_EXCEPTION_CLASS);
    assert_eq!(rust_exception_class().to_be_bytes(), [b'M', b'O', b'Z', 0, b'R', b'U', b'S', b'T']);
    assert_eq!(VENDOR_ID.to_be_bytes(), [b'M', b'O', b'Z', 0]);
    assert_eq!(LANGUAGE_ID.to_be_bytes(), [b'R', b'U', b'S', b'T']);
    assert_eq!((rust_exception_class() >> 32) as u32, VENDOR_ID);
    assert_eq!(rust_exception_class() as u32, LANGUAGE_ID);
}

#[test]
fn payload_is_the_null_address() {
    assert_eq!(payload(), 0);
}

#[test]
fn raised_envelope_carries_tag_and_payload() {
    let envelope: Envelope<u32> = sgx_panic_unwind::envelope::panic(17);
    assert_eq!(envelope.exception_class(), 0x4d4f5a_00_52555354);
    assert!(envelope.has_payload());
}

#[test]
fn round_trip_returns_the_payload() {
    let mut envelope = sgx_panic_unwind::envelope::panic(String::from("out of cheese"));
    let data = cleanup(&mut envelope);
    assert_eq!(data, "out of cheese");
    assert!(!envelope.has_payload());
    assert_eq!(envelope.exception_class(), RUST_EXCEPTION_CLASS);
}

#[test]
fn round_trip_of_a_boxed_any() {
    let data: Box<dyn Any + Send> = Box::new(String::from("boom"));
    let mut envelope = sgx_panic_unwind::envelope::panic(data);
    assert!(envelope.has_payload());
    let back: Box<dyn Any + Send> = cleanup(&mut envelope);
    assert!(back.is::<String>());
    assert_eq!(back.downcast_ref::<String>().map(|s| s.as_str()), Some("boom"));
    assert!(!envelope.has_payload());
}

#[test]
fn round_trip_keeps_distinct_payloads_apart() {
    let mut first = sgx_panic_unwind::envelope::panic(1u8);
    let mut second = sgx_panic_unwind::envelope::panic(2u8);
    assert_eq!(cleanup(&mut second), 2);
    assert!(first.has_payload());
    assert_eq!(cleanup(&mut first), 1);
}

#[test]
fn second_extraction_finds_nothing() {
    let mut envelope = sgx_panic_unwind::envelope::panic(vec![1u8, 2, 3]);
    assert_eq!(envelope.take_payload(), Some(vec![1u8, 2, 3]));
    assert_eq!(envelope.take_payload(), None);
    assert_eq!(envelope.take_payload(), None);
    assert!(!envelope.has_payload());
}

#[test]
fn extraction_after_cleanup_finds_nothing() {
    let mut envelope = sgx_panic_unwind::envelope::panic(99i64);
    assert_eq!(cleanup(&mut envelope), 99);
    assert!(!envelope.has_payload());
    assert_eq!(envelope.take_payload(), None);
}
