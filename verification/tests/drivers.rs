//! The scoped sub-traversal drivers: a sequence driver counts one
//! element off per step, a map driver counts one entry off per key
//! step only, and both stop at zero.

use bincodec::{MapDecoder, SeqDecoder};

#[test]
fn seq_driver_decrements_then_stops() {
    let mut driver = SeqDecoder::new(2);
    assert_eq!(driver.size_hint(), 2);
    assert!(driver.next_element());
    assert_eq!(driver.size_hint(), 1);
    assert!(driver.next_element());
    assert_eq!(driver.size_hint(), 0);
    assert!(!driver.next_element());
    assert!(!driver.next_element());
    assert_eq!(driver.size_hint(), 0);
}

#[test]
fn map_driver_decrements_per_key() {
    let mut driver = MapDecoder::new(1);
    assert_eq!(driver.size_hint(), 1);
    // one decrement per entry, taken at the key step; the value step
    // that follows does not touch the count
    assert!(driver.next_key());
    assert_eq!(driver.size_hint(), 0);
    assert!(!driver.next_key());
}

#[test]
fn empty_drivers_yield_nothing() {
    let mut seq_driver = SeqDecoder::new(0);
    assert!(!seq_driver.next_element());
    let mut map_driver = MapDecoder::new(0);
    assert!(!map_driver.next_key());
}
