use cacheexec::bytes::{push_all, push_le, read_le, same_bytes};
use cacheexec::error::{Error, ErrorKind, IoError};
use cacheexec::text::{
    between, decimal_text, hex_text, same_text, signed_decimal_text,
};
use cacheexec::time::{Duration, SystemTime};

#[test]
fn numbers_are_written_in_decimal() {
    assert_eq!(decimal_text(0), "0");
    assert_eq!(decimal_text(10), "10");
    assert_eq!(decimal_text(u64::MAX), "18446744073709551615");
    assert_eq!(signed_decimal_text(-7), "-7");
    assert_eq!(signed_decimal_text(i32::MIN), "-2147483648");
    assert_eq!(signed_decimal_text(143), "143");
}

#[test]
fn bytes_are_written_in_lowercase_hexadecimal() {
    assert_eq!(hex_text(&[]), "");
    assert_eq!(hex_text(&[0x00, 0x9a, 0xff, 0x10]), "009aff10");
}

#[test]
fn texts_are_joined_and_compared() {
    assert_eq!(between("a ", "é", " c"), "a é c");
    assert!(same_text("é", "é"));
    assert!(!same_text("e", "é"));
}

#[test]
fn little_endian_numbers_are_read_back() {
    let mut bytes = vec![9];
    push_le(&mut bytes, 0x0102, 4);
    assert_eq!(bytes, [9, 2, 1, 0, 0]);
    assert_eq!(read_le(&bytes, 1, 5), 0x0102);
    let mut wide = vec![];
    push_le(&mut wide, u128::MAX, 16);
    assert_eq!(read_le(&wide, 0, 16), u128::MAX);
    push_all(&mut bytes, b"x");
    assert!(same_bytes(&bytes, &[9, 2, 1, 0, 0, b'x']));
    assert!(!same_bytes(&bytes, &[9, 2, 1, 0, 0]));
}

#[test]
fn a_failure_is_rendered_from_the_outside_in() {
    let error = Error::from_io(IoError {
        kind: ErrorKind::Other,
        text: "disk full".to_owned(),
    })
    .context("write shared result")
    .context("child already completed with exit code 7");
    assert_eq!(
        error.render(),
        "child already completed with exit code 7: write shared result: disk full"
    );
    assert_eq!(Error::new("alone").render(), "alone");
}

#[test]
fn times_before_the_epoch_are_counted_too() {
    let epoch = SystemTime::unix_epoch();
    let before = epoch.checked_sub(Duration::from_nanos(1)).unwrap();
    assert_eq!((before.secs, before.nanos), (-1, 999_999_999));
    assert_eq!(before.since_epoch(), -1);
    assert_eq!(epoch.duration_since(before), Ok(1));
    assert_eq!(before.duration_since(epoch), Err(1));
    assert_eq!(before.checked_add(Duration::from_nanos(1)), Some(epoch));
    let last = SystemTime {
        secs: i64::MAX,
        nanos: 999_999_999,
    };
    assert_eq!(last.checked_add(Duration::from_nanos(1)), None);
    assert_eq!(Duration::from_millis(1500).as_nanos(), 1_500_000_000);
}
