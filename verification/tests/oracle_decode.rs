//! Tests of the oracle storage-word decoder.

use vault::oracle::price_from_storage;

#[test]
fn decodes_low_sixteen_bytes_of_a_word() {
    // A full 32-byte storage word: only the last sixteen bytes count.
    let data: Vec<u8> = (1..=32).collect();
    let price = price_from_storage(&data);
    assert_eq!(price.raw.hi, 0);
    assert_eq!(price.raw.lo, 22_690_724_228_668_807_036_942_595_891_182_575_392);
    assert_eq!(price.decimals, 18);
}

#[test]
fn decodes_short_input_whole() {
    let data: Vec<u8> = vec![1, 2, 3];
    let price = price_from_storage(&data);
    assert_eq!(price.raw.lo, 66_051);
}

#[test]
fn decodes_empty_input_as_zero() {
    let data: Vec<u8> = Vec::new();
    let price = price_from_storage(&data);
    assert_eq!(price.raw.lo, 0);
    assert_eq!(price.raw.hi, 0);
}

#[test]
fn decodes_exactly_sixteen_bytes() {
    let mut data: Vec<u8> = vec![0; 15];
    data.push(7);
    let price = price_from_storage(&data);
    assert_eq!(price.raw.lo, 7);
}
