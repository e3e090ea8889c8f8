use secret_handshake::bytes::{is_zero, store, window};

#[test]
fn window_copies_the_bytes_at_the_offset() {
    let src: Vec<u8> = (0u8..20).collect();
    let w: [u8; 4] = window::<4>(&src, 3);
    assert_eq!(w, [3, 4, 5, 6]);
    let all: [u8; 20] = window::<20>(&src, 0);
    assert_eq!(&all[..], &src[..]);
    let none: [u8; 0] = window::<0>(&src, 20);
    assert_eq!(none.len(), 0);
}

#[test]
fn store_overwrites_the_start_only() {
    let mut dst = [9u8; 6];
    store(&mut dst, &[1, 2, 3]);
    assert_eq!(dst, [1, 2, 3, 9, 9, 9]);
    store(&mut dst, &[]);
    assert_eq!(dst, [1, 2, 3, 9, 9, 9]);
    store(&mut dst, &[7; 6]);
    assert_eq!(dst, [7; 6]);
}

#[test]
fn is_zero_reads_every_byte() {
    assert!(is_zero(&[]));
    assert!(is_zero(&[0; 40]));
    assert!(!is_zero(&[0, 0, 1]));
    assert!(!is_zero(&[0x80, 0, 0]));
    assert!(!is_zero(&[0, 0x10, 0]));
}
