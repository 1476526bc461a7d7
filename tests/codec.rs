use bytes::BytesMut;
use serial_bridge::codec::find_newline;
use serial_bridge::{DecodeError, LineCodec};

fn buf(b: &[u8]) -> BytesMut {
    BytesMut::from(b)
}

#[test]
fn decode_whole_line_empties_buffer() {
    let mut src = buf(b"hello\n");
    let r = LineCodec.decode(&mut src);
    assert_eq!(r, Ok(Some("hello\n".to_string())));
    assert!(src.is_empty());
}

#[test]
fn decode_takes_first_line_only() {
    let mut src = buf(b"ab\ncd\nef");
    assert_eq!(LineCodec.decode(&mut src), Ok(Some("ab\n".to_string())));
    assert_eq!(&src[..], b"cd\nef");
    assert_eq!(LineCodec.decode(&mut src), Ok(Some("cd\n".to_string())));
    assert_eq!(&src[..], b"ef");
    assert_eq!(LineCodec.decode(&mut src), Ok(None));
    assert_eq!(&src[..], b"ef");
}

#[test]
fn decode_without_newline_keeps_buffer() {
    let mut src = buf(b"partial");
    assert_eq!(LineCodec.decode(&mut src), Ok(None));
    assert_eq!(&src[..], b"partial");
    assert_eq!(LineCodec.decode(&mut src), Ok(None));
    assert_eq!(&src[..], b"partial");
}

#[test]
fn decode_empty_buffer() {
    let mut src = BytesMut::new();
    assert_eq!(LineCodec.decode(&mut src), Ok(None));
    assert!(src.is_empty());
}

#[test]
fn decode_bare_newline() {
    let mut src = buf(b"\n");
    assert_eq!(LineCodec.decode(&mut src), Ok(Some("\n".to_string())));
    assert!(src.is_empty());
}

#[test]
fn decode_multibyte_text() {
    let mut src = buf("caf\u{e9} \u{2713}\nrest".as_bytes());
    assert_eq!(
        LineCodec.decode(&mut src),
        Ok(Some("caf\u{e9} \u{2713}\n".to_string()))
    );
    assert_eq!(&src[..], b"rest");
}

#[test]
fn decode_invalid_text_is_dropped() {
    let mut src = buf(b"\xff\xfe\nok\n");
    assert_eq!(LineCodec.decode(&mut src), Err(DecodeError::InvalidText));
    assert_eq!(&src[..], b"ok\n");
    assert_eq!(LineCodec.decode(&mut src), Ok(Some("ok\n".to_string())));
    assert!(src.is_empty());
}

#[test]
fn decode_truncated_multibyte_is_invalid() {
    let mut src = buf(b"\xc3\n");
    assert_eq!(LineCodec.decode(&mut src), Err(DecodeError::InvalidText));
    assert!(src.is_empty());
}

#[test]
fn encode_adds_no_terminator() {
    let mut dst = BytesMut::new();
    LineCodec.encode("abc".to_string(), &mut dst);
    assert_eq!(&dst[..], b"abc");
}

#[test]
fn encode_appends_after_existing_bytes() {
    let mut dst = buf(b"x");
    LineCodec.encode("yz\n".to_string(), &mut dst);
    LineCodec.encode("\u{e9}".to_string(), &mut dst);
    assert_eq!(&dst[..], b"xyz\n\xc3\xa9");
}

#[test]
fn encode_empty_line() {
    let mut dst = buf(b"q");
    LineCodec.encode(String::new(), &mut dst);
    assert_eq!(&dst[..], b"q");
}

#[test]
fn encode_then_decode_round_trip() {
    let mut wire = BytesMut::new();
    LineCodec.encode("ping\n".to_string(), &mut wire);
    assert_eq!(LineCodec.decode(&mut wire), Ok(Some("ping\n".to_string())));
    assert!(wire.is_empty());
}

#[test]
fn find_newline_positions() {
    assert_eq!(find_newline(b""), None);
    assert_eq!(find_newline(b"abc"), None);
    assert_eq!(find_newline(b"\n"), Some(0));
    assert_eq!(find_newline(b"ab\ncd\n"), Some(2));
}

#[test]
fn try_encode_appends() {
    let mut dst = buf(b"> ");
    assert!(LineCodec.try_encode("go\n".to_string(), &mut dst));
    assert_eq!(&dst[..], b"> go\n");
}
