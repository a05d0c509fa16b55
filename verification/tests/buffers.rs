use libdeno::buf::{deno_buf, PinnedBuf};
use libdeno::bridge::deno_import_buf;

#[test]
fn empty_buf_is_null() {
    let b = deno_buf::empty();
    assert!(b.is_null());
    assert_eq!(b.len(), 0);
    assert_eq!(b.bytes().len(), 0);
}

#[test]
fn from_vec_is_not_null_even_when_empty() {
    let b = deno_buf::from_vec(Vec::new());
    assert!(!b.is_null());
    assert_eq!(b.len(), 0);
}

#[test]
fn from_vec_keeps_bytes() {
    let b = deno_buf::from_vec(vec![1u8, 2, 3]);
    assert!(!b.is_null());
    assert_eq!(b.len(), 3);
    assert_eq!(b.bytes().as_slice(), &[1u8, 2, 3]);
}

#[test]
fn import_copies_bytes_exactly() {
    let b = deno_buf::from_vec(vec![7u8, 0, 255, 42]);
    let imported = deno_import_buf(&b);
    assert_eq!(imported, vec![7u8, 0, 255, 42]);
}

#[test]
fn import_of_null_buffer_is_zero_length_array() {
    let b = deno_buf::empty();
    let imported = deno_import_buf(&b);
    assert_eq!(imported.len(), 0);
}

#[test]
fn import_of_empty_buffer_is_zero_length_array() {
    let b = deno_buf::from_vec(Vec::new());
    let imported = deno_import_buf(&b);
    assert_eq!(imported.len(), 0);
}

#[test]
fn pinned_buf_round_trip() {
    let mut p = PinnedBuf::new(vec![9u8, 8, 7]);
    assert_eq!(p.as_bytes().as_slice(), &[9u8, 8, 7]);
    p.as_bytes_mut()[0] = 1;
    assert_eq!(p.as_bytes().as_slice(), &[1u8, 8, 7]);
}
