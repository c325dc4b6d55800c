use vstd::prelude::*;

verus! {

/// One byte of the edited data.
#[derive(Clone, Copy, PartialEq, Eq, Structural)]
pub struct Byte(pub u8);

/// How a byte is classified for display.
#[derive(Clone, Copy, PartialEq, Eq, Structural, Debug)]
pub enum ByteType {
    Null,
    AsciiPrintable,
    AsciiWhitespace,
    AsciiOther,
    NonAscii,
}

/// Visible ASCII characters, `!` through `~`.
pub open spec fn is_ascii_graphic(b: u8) -> bool {
    0x21 <= b <= 0x7e
}

/// Space, tab, line feed, form feed and carriage return.
pub open spec fn is_ascii_whitespace(b: u8) -> bool {
    b == 0x20 || b == 0x09 || b == 0x0a || b == 0x0c || b == 0x0d
}

pub open spec fn bytetype_of(b: u8) -> ByteType {
    if b == 0 {
        ByteType::Null
    } else if is_ascii_graphic(b) {
        ByteType::AsciiPrintable
    } else if is_ascii_whitespace(b) {
        ByteType::AsciiWhitespace
    } else if b < 0x80 {
        ByteType::AsciiOther
    } else {
        ByteType::NonAscii
    }
}

/// The upper-case hexadecimal digit for a value below sixteen: `0`-`9` are
/// code points 48-57, `A`-`F` are 65-70.
pub open spec fn hex_digit(n: u8) -> char {
    if n < 10 {
        (48 + n) as u8 as char
    } else {
        (55 + n) as u8 as char
    }
}

/// The two upper-case hexadecimal digits of a byte, high nibble first.
pub open spec fn hex_of(b: u8) -> Seq<char> {
    seq![hex_digit(b / 16), hex_digit(b % 16)]
}

fn hex_digit_exec(n: u8) -> (c: char)
    requires
        n < 16,
    ensures
        c == hex_digit(n),
{
    if n < 10 {
        (48u8 + n) as char
    } else {
        (55u8 + n) as char
    }
}

/// Relies on `FromIterator<char>` for `String`: the string holds the
/// characters in order.
#[verifier::external_body]
fn string_from_chars(cs: &Vec<char>) -> (s: String)
    ensures
        s@ == cs@,
{
    cs.iter().collect()
}

impl Byte {
    pub fn new(value: u8) -> (r: Self)
        ensures
            r.0 == value,
    {
        Byte(value)
    }

    pub fn value(&self) -> (r: u8)
        ensures
            r == self.0,
    {
        self.0
    }

    pub fn get_bytetype(self) -> (r: ByteType)
        ensures
            r == bytetype_of(self.0),
    {
        let c = self.0;
        if c == 0 {
            ByteType::Null
        } else if 0x21 <= c && c <= 0x7e {
            ByteType::AsciiPrintable
        } else if c == 0x20 || c == 0x09 || c == 0x0a || c == 0x0c || c == 0x0d {
            ByteType::AsciiWhitespace
        } else if c < 0x80 {
            ByteType::AsciiOther
        } else {
            ByteType::NonAscii
        }
    }

    /// The byte as two upper-case hexadecimal digits.
    pub fn get_hex(self) -> (r: String)
        ensures
            r@ == hex_of(self.0),
    {
        let mut cs: Vec<char> = Vec::new();
        cs.push(hex_digit_exec(self.0 / 16));
        cs.push(hex_digit_exec(self.0 % 16));
        assert(cs@ =~= hex_of(self.0));
        string_from_chars(&cs)
    }
}

} // verus!
