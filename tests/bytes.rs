use hexhog::{Byte, ByteType, Charset, Config};

#[test]
fn byte_kinds() {
    assert!(matches!(Byte::new(0).get_bytetype(), ByteType::Null));
    assert!(matches!(Byte::new(b'A').get_bytetype(), ByteType::AsciiPrintable));
    assert!(matches!(Byte::new(b'~').get_bytetype(), ByteType::AsciiPrintable));
    assert!(matches!(Byte::new(b' ').get_bytetype(), ByteType::AsciiWhitespace));
    assert!(matches!(Byte::new(b'\n').get_bytetype(), ByteType::AsciiWhitespace));
    assert!(matches!(Byte::new(0x0b).get_bytetype(), ByteType::AsciiOther));
    assert!(matches!(Byte::new(0x7f).get_bytetype(), ByteType::AsciiOther));
    assert!(matches!(Byte::new(0x80).get_bytetype(), ByteType::NonAscii));
    assert_eq!(Byte::new(0x9c).value(), 0x9c);
}

#[test]
fn byte_hex_digits() {
    assert_eq!(Byte::new(0x00).get_hex(), "00");
    assert_eq!(Byte::new(0x0a).get_hex(), "0A");
    assert_eq!(Byte::new(0xff).get_hex(), "FF");
    assert_eq!(Byte::new(0x41).get_hex(), "41");
}

#[test]
fn byte_characters() {
    let config = Config::default();
    assert_eq!(Byte::new(0).get_char(&config), '.');
    assert_eq!(Byte::new(b'z').get_char(&config), 'z');
    assert_eq!(Byte::new(b' ').get_char(&config), ' ');
    assert_eq!(Byte::new(b'\t').get_char(&config), '\u{b7}');
    assert_eq!(Byte::new(0x01).get_char(&config), '\u{b0}');
    assert_eq!(Byte::new(0xe9).get_char(&config), '\u{d7}');
    let charset = Charset { null: '0', ascii_whitespace: 'w', ascii_other: 'o', non_ascii: 'n' };
    assert_eq!(charset.get_char(&Byte::new(0)), '0');
    assert_eq!(charset.get_char(&Byte::new(b'\r')), 'w');
    assert_eq!(charset.get_char(&Byte::new(0x1b)), 'o');
    assert_eq!(charset.get_char(&Byte::new(0xff)), 'n');
}
