//! The domain-separated message digest.

use bls::MESSAGE_SIZE;
use bls::Message;

#[test]
fn digest_is_deterministic() {
    let a = Message::new(b"ctx", b"hello world");
    let b = Message::new(b"ctx", b"hello world");
    assert_eq!(a, b);
    assert_eq!(a.0.len(), MESSAGE_SIZE);
}

#[test]
fn contexts_separate_domains() {
    let b = b"same body";
    let m1 = Message::new(b"ctx1", b);
    let m2 = Message::new(b"ctx2", b);
    assert_ne!(m1, m2);

    // Different context lengths separate too.
    let m3 = Message::new(b"c", b);
    let m4 = Message::new(b"cc", b);
    assert_ne!(m3, m4);
}

#[test]
fn length_prefix_blocks_concatenation_ambiguity() {
    // Moving a byte across the context/message boundary changes the
    // digested stream because the length prefix sits between them.
    let m1 = Message::new(b"ab", b"c");
    let m2 = Message::new(b"a", b"bc");
    assert_ne!(m1, m2);
}

#[test]
fn single_bit_flip_changes_digest() {
    let base = Message::new(b"ctx", b"payload");
    let flipped = Message::new(b"ctx", b"payload\x00");
    assert_ne!(base, flipped);
    let bitflip = Message::new(b"ctx", b"qayload");
    assert_ne!(base, bitflip);
}

#[test]
fn empty_inputs_are_accepted() {
    let m1 = Message::new(b"", b"");
    let m2 = Message::new(b"", b"x");
    assert_ne!(m1, m2);
    assert_eq!(m1.0.len(), MESSAGE_SIZE);
}

#[test]
fn digest_depends_on_tail_bytes() {
    // The digested streams here agree on far more than 32 leading
    // bytes and differ only at the very end.
    let ctx = [b'A'; 40];
    let m1 = Message::new(&ctx, b"x");
    let m2 = Message::new(&ctx, b"y");
    assert_ne!(m1, m2);
}

#[test]
fn from_bytes_is_empty_context_digest() {
    let m1 = Message::from(&b"some bytes"[..]);
    let m2 = Message::new(b"", b"some bytes");
    assert_eq!(m1, m2);
    let m3 = Message::new(b"c", b"some bytes");
    assert_ne!(m1, m3);
}
