use dtrace::text::cstring_from_bytes;

#[test]
fn padded_buffer_gives_the_text_before_the_padding() {
    let mut buf = [0u8; 64];
    buf[0] = b'a';
    buf[1] = b'b';
    buf[2] = b'c';
    let text = cstring_from_bytes(&buf);
    assert_eq!(text.as_bytes(), b"abc");
    assert_eq!(text.len(), 3);
}

#[test]
fn all_zero_buffer_gives_the_empty_text() {
    let buf = [0u8; 64];
    let text = cstring_from_bytes(&buf);
    assert_eq!(text.len(), 0);
    assert_eq!(text.as_bytes(), b"");
}

#[test]
fn buffer_without_zero_byte_is_taken_whole() {
    let buf = [b'x'; 64];
    let text = cstring_from_bytes(&buf);
    assert_eq!(text.len(), 64);
    assert_eq!(text.as_bytes(), &buf[..]);

    let long = [b'y'; 192];
    let text = cstring_from_bytes(&long);
    assert_eq!(text.len(), 192);
    assert_eq!(text.as_bytes(), &long[..]);
}

#[test]
fn empty_buffer_gives_the_empty_text() {
    let text = cstring_from_bytes(&[]);
    assert_eq!(text.len(), 0);
}

#[test]
fn bytes_after_the_first_zero_byte_are_dropped() {
    let text = cstring_from_bytes(b"ab\0cd\0ef");
    assert_eq!(text.as_bytes(), b"ab");
    let text = cstring_from_bytes(b"\0abc");
    assert_eq!(text.as_bytes(), b"");
}

#[test]
fn zero_byte_in_the_last_place_is_found() {
    let mut buf = [b'z'; 64];
    buf[63] = 0;
    let text = cstring_from_bytes(&buf);
    assert_eq!(text.len(), 63);
    assert_eq!(text.as_bytes(), &buf[..63]);
}

#[test]
fn bytes_that_are_no_utf8_are_kept() {
    let text = cstring_from_bytes(&[0xff, 0xfe, 0x80, 0, 0x41]);
    assert_eq!(text.as_bytes(), &[0xff, 0xfe, 0x80]);
}

#[test]
fn decoding_twice_is_decoding_once() {
    let once = cstring_from_bytes(b"provider\0\0\0junk");
    let twice = cstring_from_bytes(once.as_bytes());
    assert_eq!(once, twice);
    assert_eq!(twice.as_bytes(), b"provider");

    let whole = cstring_from_bytes(b"no padding");
    assert_eq!(cstring_from_bytes(whole.as_bytes()), whole);
}

#[test]
fn text_holds_no_zero_byte() {
    let text = cstring_from_bytes(b"syscall\0\0");
    assert!(text.as_bytes().iter().all(|b| *b != 0));
    let bytes = text.clone().into_bytes();
    assert_eq!(bytes, b"syscall".to_vec());
    assert_eq!(text.clone(), text);
}
