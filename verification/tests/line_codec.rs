use tokio_core::io::EasyBuf;

use async_bzip::line_codec::{decode_line, encode_line, LineError};

fn buffer_of(bytes: &[u8]) -> EasyBuf {
    EasyBuf::from(bytes.to_vec())
}

#[test]
fn encodes_text_and_newline() {
    let mut out = b"old".to_vec();
    encode_line("hello".to_string(), &mut out);
    assert_eq!(out, b"oldhello\n".to_vec());
}

#[test]
fn decodes_first_line_and_keeps_the_rest() {
    let mut buf = buffer_of(b"first\nsecond\nthi");
    let line = decode_line(&mut buf);
    assert!(matches!(line, Ok(Some(ref s)) if s == "first"));
    assert_eq!(buf.as_slice(), b"second\nthi");
    let line = decode_line(&mut buf);
    assert!(matches!(line, Ok(Some(ref s)) if s == "second"));
    assert_eq!(buf.as_slice(), b"thi");
}

#[test]
fn waits_for_a_newline() {
    let mut buf = buffer_of(b"no newline yet");
    let line = decode_line(&mut buf);
    assert!(matches!(line, Ok(None)));
    assert_eq!(buf.as_slice(), b"no newline yet");
    let mut empty = buffer_of(b"");
    assert!(matches!(decode_line(&mut empty), Ok(None)));
}

#[test]
fn decodes_empty_line() {
    let mut buf = buffer_of(b"\nrest");
    let line = decode_line(&mut buf);
    assert!(matches!(line, Ok(Some(ref s)) if s.is_empty()));
    assert_eq!(buf.as_slice(), b"rest");
}

#[test]
fn invalid_utf8_line_is_refused_and_dropped() {
    let mut buf = buffer_of(&[0xff, 0xfe, b'\n', b'o', b'k', b'\n']);
    let line = decode_line(&mut buf);
    assert!(matches!(line, Err(LineError::InvalidString)));
    assert_eq!(buf.as_slice(), b"ok\n");
    let line = decode_line(&mut buf);
    assert!(matches!(line, Ok(Some(ref s)) if s == "ok"));
    assert!(buf.as_slice().is_empty());
}

#[test]
fn framing_roundtrip() {
    let mut out = Vec::new();
    encode_line("caff\u{e8} \u{1f600}".to_string(), &mut out);
    out.extend_from_slice(b"tail");
    let mut buf = buffer_of(&out);
    let line = decode_line(&mut buf);
    assert!(matches!(line, Ok(Some(ref s)) if s == "caff\u{e8} \u{1f600}"));
    assert_eq!(buf.as_slice(), b"tail");
}
