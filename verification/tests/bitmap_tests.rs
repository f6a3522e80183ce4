use ezfs::bitmap::Bitmap;
use ezfs::kernel_types::{Error, ERANGE};

fn snapshot(b: &Bitmap, capacity: u64) -> Vec<bool> {
    let mut bits = Vec::new();
    let mut i = 0u64;
    while i < capacity {
        bits.push(b.is_set(i).unwrap());
        i += 1;
    }
    bits
}

#[test]
fn new_exposes_word_bits() {
    let b = Bitmap::new(vec![0b101u32]);
    assert_eq!(b.is_set(0), Ok(true));
    assert_eq!(b.is_set(1), Ok(false));
    assert_eq!(b.is_set(2), Ok(true));
    assert_eq!(b.is_set(3), Ok(false));
    assert_eq!(b.is_set(31), Ok(false));
}

#[test]
fn set_and_clear_round_trip() {
    let mut b = Bitmap::new(vec![0u32; 2]);
    assert_eq!(b.set_bit(33), Ok(()));
    assert_eq!(b.is_set(33), Ok(true));
    assert_eq!(b.is_set(32), Ok(false));
    assert_eq!(b.is_set(34), Ok(false));
    assert_eq!(b.clear_bit(33), Ok(()));
    assert_eq!(b.is_set(33), Ok(false));
}

#[test]
fn set_bit_is_idempotent() {
    let mut b = Bitmap::new(vec![0xdeadu32, 7u32]);
    assert_eq!(b.set_bit(5), Ok(()));
    let once = snapshot(&b, 64);
    assert_eq!(b.set_bit(5), Ok(()));
    let twice = snapshot(&b, 64);
    assert_eq!(once, twice);
}

#[test]
fn clear_bit_is_idempotent() {
    let mut b = Bitmap::new(vec![0xffff_ffffu32]);
    assert_eq!(b.clear_bit(17), Ok(()));
    let once = snapshot(&b, 32);
    assert_eq!(b.clear_bit(17), Ok(()));
    let twice = snapshot(&b, 32);
    assert_eq!(once, twice);
    assert_eq!(b.is_set(17), Ok(false));
    assert_eq!(b.is_set(16), Ok(true));
    assert_eq!(b.is_set(18), Ok(true));
}

#[test]
fn out_of_bounds_fails_and_leaves_state() {
    let mut b = Bitmap::new(vec![0b1u32]);
    let before = snapshot(&b, 32);
    assert_eq!(b.is_set(32), Err(Error(ERANGE)));
    assert_eq!(b.set_bit(32), Err(Error(ERANGE)));
    assert_eq!(b.clear_bit(100), Err(Error(ERANGE)));
    assert_eq!(b.set_bit(u64::MAX), Err(Error(ERANGE)));
    let after = snapshot(&b, 32);
    assert_eq!(before, after);
}

#[test]
fn in_range_is_set_never_fails() {
    let b = Bitmap::new(vec![0x5a5a_5a5au32, 0, 0xffff_ffff]);
    let mut i = 0u64;
    while i < 96 {
        assert!(b.is_set(i).is_ok());
        i += 1;
    }
}
