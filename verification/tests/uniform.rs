use fractal_view::binary32::Binary32;
use fractal_view::params::{ColorParams, Coordinates, Iterations, Viewport};
use fractal_view::uniform::{Block, Uniform};

fn word(x: f32) -> Binary32 {
    Binary32::from_bits(x.to_bits())
}

/// A buffer that counts its writes.
struct Buffer {
    bytes: Vec<u8>,
    writes: usize,
}

fn upload<T: Block>(store: &mut Uniform<T>, buffer: &mut Buffer) {
    if let Some(bytes) = store.upload() {
        buffer.bytes = bytes;
        buffer.writes += 1;
    }
}

fn native(words: &[u32]) -> Vec<u8> {
    let mut bytes = Vec::new();
    for w in words {
        bytes.extend_from_slice(&w.to_ne_bytes());
    }
    bytes
}

#[test]
fn new_store_is_up_to_date() {
    let mut store = Uniform::new(Iterations::new(1000));
    assert_eq!(**store, 1000);
    assert!(store.upload().is_none());
}

#[test]
fn contents_are_the_bytes_of_the_words() {
    let store = Uniform::new(Iterations::new(1000));
    assert_eq!(store.contents(), 1000i32.to_ne_bytes().to_vec());
    let store = Uniform::new(Viewport::new(word(400.), word(300.), word(1.5)));
    let mut want = Vec::new();
    want.extend_from_slice(&400.0f32.to_ne_bytes());
    want.extend_from_slice(&300.0f32.to_ne_bytes());
    want.extend_from_slice(&1.5f32.to_ne_bytes());
    assert_eq!(store.contents(), want);
}

#[test]
fn contents_are_not_the_words_themselves() {
    let store = Uniform::new(Iterations::new(0x0102));
    let bytes = store.contents();
    assert_eq!(bytes.len(), 4);
    assert_eq!(bytes.iter().filter(|b| **b != 0).count(), 2);
    assert_eq!(u32::from_ne_bytes([bytes[0], bytes[1], bytes[2], bytes[3]]), 0x0102);
}

#[test]
fn contents_have_four_bytes_a_word() {
    assert_eq!(Uniform::new(Viewport::new(word(1.), word(2.), word(3.))).contents().len(), 12);
    assert_eq!(Uniform::new(Coordinates::default()).contents().len(), 12);
    assert_eq!(Uniform::new(Iterations::new(7)).contents().len(), 4);
    assert_eq!(Uniform::new(ColorParams::new(word(0.5), word(1.), word(1.))).contents().len(), 24);
}

#[test]
fn color_contents_follow_the_field_order() {
    let color = ColorParams::new(word(0.5), word(0.25), word(0.75)).set_link((true, false, true));
    let store = Uniform::new(color);
    let mut want = Vec::new();
    want.extend_from_slice(&0.5f32.to_ne_bytes());
    want.extend_from_slice(&0.25f32.to_ne_bytes());
    want.extend_from_slice(&0.75f32.to_ne_bytes());
    want.extend_from_slice(&1i32.to_ne_bytes());
    want.extend_from_slice(&0i32.to_ne_bytes());
    want.extend_from_slice(&1i32.to_ne_bytes());
    assert_eq!(store.contents(), want);
}

#[test]
fn set_replaces_the_value() {
    let mut store = Uniform::new(Iterations::new(1000));
    store.set(Iterations::new(250));
    assert_eq!(**store, 250);
}

#[test]
fn upload_without_set_writes_nothing() {
    let mut store = Uniform::new(Iterations::new(1000));
    let mut buffer = Buffer { bytes: store.contents(), writes: 0 };
    upload(&mut store, &mut buffer);
    assert_eq!(buffer.writes, 0);
    store.set(Iterations::new(5));
    upload(&mut store, &mut buffer);
    assert_eq!(buffer.writes, 1);
    upload(&mut store, &mut buffer);
    upload(&mut store, &mut buffer);
    assert_eq!(buffer.writes, 1);
}

#[test]
fn upload_after_one_set_writes_once() {
    let mut store = Uniform::new(Iterations::new(1000));
    let mut buffer = Buffer { bytes: store.contents(), writes: 0 };
    store.set(Iterations::new(42));
    upload(&mut store, &mut buffer);
    assert_eq!(buffer.writes, 1);
    assert_eq!(buffer.bytes, native(&[42]));
}

#[test]
fn upload_after_many_sets_writes_once_with_the_last_value() {
    let mut store = Uniform::new(Coordinates::default());
    let mut buffer = Buffer { bytes: store.contents(), writes: 0 };
    for i in 0..10 {
        let moved = store.set_complex((word(i as f32 / 10.), word(0.)));
        store.set(moved);
    }
    upload(&mut store, &mut buffer);
    assert_eq!(buffer.writes, 1);
    assert_eq!(buffer.bytes, native(&[0.9f32.to_bits(), 0, 1.5f32.to_bits()]));
    upload(&mut store, &mut buffer);
    assert_eq!(buffer.writes, 1);
}

#[test]
fn set_of_the_same_value_still_marks_the_store() {
    let mut store = Uniform::new(Iterations::new(1000));
    store.set(Iterations::new(1000));
    assert_eq!(store.upload(), Some(native(&[1000])));
    assert_eq!(store.upload(), None);
}

#[test]
fn upload_keeps_the_value() {
    let mut store = Uniform::new(Iterations::new(1000));
    store.set(Iterations::new(77));
    let _ = store.upload();
    assert_eq!(**store, 77);
}
