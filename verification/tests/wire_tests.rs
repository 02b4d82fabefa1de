//! Byte-level tests of the big-endian framing primitives.

use nbd::wire::{
    get_u16_be, get_u32_be, get_u64_be, put_bytes, put_u16_be, put_u32_be, put_u64_be, put_zeroes,
};

#[test]
fn test_put_u16_be_exact() {
    let mut out: Vec<u8> = Vec::new();
    put_u16_be(&mut out, 0x1234);
    assert_eq!(out, vec![0x12, 0x34]);
    put_u16_be(&mut out, 9);
    assert_eq!(out, vec![0x12, 0x34, 0x00, 0x09]);
}

#[test]
fn test_put_u32_be_exact() {
    let mut out: Vec<u8> = Vec::new();
    put_u32_be(&mut out, 0x25609513);
    assert_eq!(out, vec![0x25, 0x60, 0x95, 0x13]);
}

#[test]
fn test_put_u64_be_magic_is_ascii() {
    let mut out: Vec<u8> = Vec::new();
    put_u64_be(&mut out, 0x4e42444d41474943);
    assert_eq!(out, b"NBDMAGIC".to_vec());
    let mut opt: Vec<u8> = Vec::new();
    put_u64_be(&mut opt, 0x49484156454F5054);
    assert_eq!(opt, b"IHAVEOPT".to_vec());
}

#[test]
fn test_get_round_trips() {
    let mut out: Vec<u8> = Vec::new();
    put_u16_be(&mut out, 0xbeef);
    put_u32_be(&mut out, 0xdeadbeef);
    put_u64_be(&mut out, 0x0123456789abcdef);
    assert_eq!(get_u16_be(&out, 0), 0xbeef);
    assert_eq!(get_u32_be(&out, 2), 0xdeadbeef);
    assert_eq!(get_u64_be(&out, 6), 0x0123456789abcdef);
}

#[test]
fn test_put_bytes_and_zeroes() {
    let mut out: Vec<u8> = vec![1];
    put_bytes(&mut out, &vec![2, 3]);
    put_zeroes(&mut out, 3);
    assert_eq!(out, vec![1, 2, 3, 0, 0, 0]);
}
