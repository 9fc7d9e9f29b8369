use lldb::text::read_text;
use lldb::Fault;

#[test]
fn text_ends_at_the_first_zero_byte() {
    assert_eq!(read_text(b"StateChanged\0"), Ok("StateChanged"));
    assert_eq!(read_text(b"mov\0rax, rbx\0"), Ok("mov"));
    assert_eq!(read_text(b"a\0\0\0"), Ok("a"));
}

#[test]
fn empty_text_is_text() {
    assert_eq!(read_text(b"\0"), Ok(""));
    assert_eq!(read_text(b"\0left over"), Ok(""));
}

#[test]
fn buffer_without_zero_byte_is_malformed() {
    assert_eq!(read_text(b""), Err(Fault::MalformedText));
    assert_eq!(read_text(b"unterminated"), Err(Fault::MalformedText));
}

#[test]
fn text_that_is_not_utf8_is_malformed() {
    assert_eq!(read_text(&[0xff, 0x00]), Err(Fault::MalformedText));
    assert_eq!(read_text(&[b'a', 0xc3, 0x00]), Err(Fault::MalformedText));
    assert_eq!(read_text(&[0xc0, 0x80, 0x00]), Err(Fault::MalformedText));
    assert_eq!(read_text(&[0xed, 0xa0, 0x80, 0x00]), Err(Fault::MalformedText));
    assert_eq!(read_text(&[0xf4, 0x90, 0x80, 0x80, 0x00]), Err(Fault::MalformedText));
}

#[test]
fn bytes_after_the_zero_byte_are_not_read() {
    assert_eq!(read_text(&[b'o', b'k', 0x00, 0xff, 0xfe]), Ok("ok"));
}

#[test]
fn multibyte_text_is_decoded() {
    let buffer = [0x6e, 0x61, 0xc3, 0xaf, 0x76, 0x65, 0x20, 0xe2, 0x82, 0xac, 0x20, 0xf0, 0x9f, 0x98, 0x80, 0x00];
    let text = read_text(&buffer).unwrap();
    assert_eq!(text, "na\u{ef}ve \u{20ac} \u{1f600}");
    assert_eq!(text.chars().count(), 9);
    assert_eq!(text.len(), buffer.len() - 1);
}

#[test]
fn text_borrows_from_the_buffer() {
    let buffer = *b"name\0";
    let text = read_text(&buffer).unwrap();
    assert_eq!(text.as_ptr(), buffer.as_ptr());
}
