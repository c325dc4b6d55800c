use vstd::prelude::*;
use ratatui::style::Color;
use crate::byte::{Byte, ByteType, bytetype_of};

verus! {

// ratatui's `Color` is a public enum of plain values; Verus reads its variants.
#[verifier::external_type_specification]
pub struct ExColor(Color);

/// What ratatui's colour parser gives for a colour's text, if anything.
pub uninterp spec fn parsed_color(s: Seq<char>) -> Option<Color>;

/// Relies on `FromStr for ratatui::style::Color`: the colour that the text
/// names (a colour name, a palette index, or `#rrggbb`), which depends on the
/// text alone.
#[verifier::external_body]
fn parse_color(s: &str) -> (r: Option<Color>)
    ensures
        r == parsed_color(s@),
{
    <Color as std::str::FromStr>::from_str(s).ok()
}

/// Colours for the kinds of bytes and for the editor's frame.
pub struct ColorScheme {
    pub null: Color,
    pub ascii_printable: Color,
    pub ascii_whitespace: Color,
    pub ascii_other: Color,
    pub non_ascii: Color,
    pub accent: Color,
    pub primary: Color,
    pub border: Color,
    pub select: Color,
    pub background: Color,
}

/// Characters shown for bytes that have no printable form of their own.
pub struct Charset {
    pub null: char,
    pub ascii_whitespace: char,
    pub ascii_other: char,
    pub non_ascii: char,
}

pub struct Config {
    pub colorscheme: ColorScheme,
    pub charset: Charset,
}

/// A value of the configuration file, as plain values.
pub enum ConfigValue {
    Str(String),
    Integer(i64),
    Array(Vec<ConfigValue>),
    /// Keys with their values; each key at most once.
    Table(Vec<(String, ConfigValue)>),
    /// Any other kind of value (boolean, float, date).
    Other,
}

/// Why a configuration value was rejected.
#[derive(Clone, Copy, PartialEq, Eq, Structural, Debug)]
pub enum ConfigError {
    InvalidColorName,
    InvalidColorIndex,
    InvalidColorFormat,
    NotAString,
    EmptyString,
    NotSingleChar,
}

/// A rejected field of the configuration; the field keeps its default.
pub struct FieldError {
    pub field: String,
    pub error: ConfigError,
}

impl ColorScheme {
    pub open spec fn color_for(&self, b: u8) -> Color {
        match bytetype_of(b) {
            ByteType::Null => self.null,
            ByteType::AsciiPrintable => self.ascii_printable,
            ByteType::AsciiWhitespace => self.ascii_whitespace,
            ByteType::AsciiOther => self.ascii_other,
            ByteType::NonAscii => self.non_ascii,
        }
    }

    /// The colour that a byte is drawn in, by its kind.
    pub fn get_color(&self, byte: &Byte) -> (r: Color)
        ensures
            r == self.color_for(byte.0),
    {
        match byte.get_bytetype() {
            ByteType::Null => self.null,
            ByteType::AsciiPrintable => self.ascii_printable,
            ByteType::AsciiWhitespace => self.ascii_whitespace,
            ByteType::AsciiOther => self.ascii_other,
            ByteType::NonAscii => self.non_ascii,
        }
    }
}

impl Charset {
    /// Printable ASCII shows as itself and the space as a space; other bytes
    /// show as the character chosen for their kind.
    pub open spec fn char_for(&self, b: u8) -> char {
        match bytetype_of(b) {
            ByteType::Null => self.null,
            ByteType::AsciiPrintable => b as char,
            ByteType::AsciiWhitespace => if b == 0x20 {
                ' '
            } else {
                self.ascii_whitespace
            },
            ByteType::AsciiOther => self.ascii_other,
            ByteType::NonAscii => self.non_ascii,
        }
    }

    /// The character that a byte is shown as.
    pub fn get_char(&self, byte: &Byte) -> (r: char)
        ensures
            r == self.char_for(byte.0),
    {
        match byte.get_bytetype() {
            ByteType::Null => self.null,
            ByteType::AsciiPrintable => byte.value() as char,
            ByteType::AsciiWhitespace => if byte.value() == 0x20 {
                ' '
            } else {
                self.ascii_whitespace
            },
            ByteType::AsciiOther => self.ascii_other,
            ByteType::NonAscii => self.non_ascii,
        }
    }
}

impl Byte {
    /// The character this byte is shown as under `config`.
    pub fn get_char(self, config: &Config) -> (r: char)
        ensures
            r == config.charset.char_for(self.0),
    {
        config.charset.get_char(&self)
    }
}

/// The value under `key` in a table, the first if the key occurs twice.
pub open spec fn lookup(t: Seq<(String, ConfigValue)>, key: Seq<char>) -> Option<ConfigValue>
    decreases t.len(),
{
    if t.len() == 0 {
        None
    } else if t[0].0@ == key {
        Some(t[0].1)
    } else {
        lookup(t.drop_first(), key)
    }
}

pub open spec fn in_byte_range(i: i64) -> bool {
    0 <= i <= 255
}

/// The colour that a configuration value gives: a colour's text, a palette
/// index from 0 to 255, or three such numbers for red, green and blue.
pub open spec fn value_color(v: ConfigValue) -> Result<Color, ConfigError> {
    match v {
        ConfigValue::Str(s) => match parsed_color(s@) {
            Some(c) => Ok(c),
            None => Err(ConfigError::InvalidColorName),
        },
        ConfigValue::Integer(i) => if in_byte_range(i) {
            Ok(Color::Indexed(i as u8))
        } else {
            Err(ConfigError::InvalidColorIndex)
        },
        ConfigValue::Array(a) => if a@.len() == 3 && (a@[0] matches ConfigValue::Integer(r)
            && in_byte_range(r)) && (a@[1] matches ConfigValue::Integer(g) && in_byte_range(g)) && (
        a@[2] matches ConfigValue::Integer(b) && in_byte_range(b)) {
            Ok(Color::Rgb(a@[0]->Integer_0 as u8, a@[1]->Integer_0 as u8, a@[2]->Integer_0 as u8))
        } else {
            Err(ConfigError::InvalidColorFormat)
        },
        _ => Err(ConfigError::InvalidColorFormat),
    }
}

/// The character that a configuration value gives: a string of exactly one
/// character.
pub open spec fn value_char(v: ConfigValue) -> Result<char, ConfigError> {
    match v {
        ConfigValue::Str(s) => if s@.len() == 1 {
            Ok(s@[0])
        } else if s@.len() == 0 {
            Err(ConfigError::EmptyString)
        } else {
            Err(ConfigError::NotSingleChar)
        },
        _ => Err(ConfigError::NotAString),
    }
}

/// The value under `field`, if the table has one.
pub fn find_field<'a>(table: &'a Vec<(String, ConfigValue)>, field: &str) -> (r: Option<
    &'a ConfigValue,
>)
    ensures
        match r {
            Some(v) => lookup(table@, field@) == Some(*v),
            None => lookup(table@, field@) is None,
        },
{
    let key = field.to_owned();
    let n = table.len();
    let mut i: usize = 0;
    assert(table@.subrange(0, n as int) =~= table@);
    while i < n
        invariant
            0 <= i <= n,
            n == table.len(),
            key@ == field@,
            lookup(table@, field@) == lookup(table@.subrange(i as int, n as int), field@),
        decreases n - i,
    {
        let ghost rest = table@.subrange(i as int, n as int);
        assert(rest.drop_first() =~= table@.subrange(i + 1, n as int));
        if table[i].0 == key {
            return Some(&table[i].1);
        }
        i = i + 1;
    }
    None
}

impl Config {
    /// The colour that a configuration value gives, or why it gives none.
    pub fn toml_value_to_color(value: &ConfigValue) -> (r: Result<Color, ConfigError>)
        ensures
            r == value_color(*value),
    {
        match value {
            ConfigValue::Str(s) => match parse_color(s.as_str()) {
                Some(c) => Ok(c),
                None => Err(ConfigError::InvalidColorName),
            },
            ConfigValue::Integer(i) => {
                if 0 <= *i && *i <= 255 {
                    Ok(Color::Indexed(*i as u8))
                } else {
                    Err(ConfigError::InvalidColorIndex)
                }
            },
            ConfigValue::Array(a) => {
                if a.len() != 3 {
                    return Err(ConfigError::InvalidColorFormat);
                }
                match (&a[0], &a[1], &a[2]) {
                    (ConfigValue::Integer(r), ConfigValue::Integer(g), ConfigValue::Integer(b)) => {
                        if 0 <= *r && *r <= 255 && 0 <= *g && *g <= 255 && 0 <= *b && *b <= 255 {
                            Ok(Color::Rgb(*r as u8, *g as u8, *b as u8))
                        } else {
                            Err(ConfigError::InvalidColorFormat)
                        }
                    },
                    _ => Err(ConfigError::InvalidColorFormat),
                }
            },
            _ => Err(ConfigError::InvalidColorFormat),
        }
    }

    /// The character that a configuration value gives, or why it gives none.
    pub fn value_to_char(value: &ConfigValue) -> (r: Result<char, ConfigError>)
        ensures
            r == value_char(*value),
    {
        broadcast use vstd::string::axiom_spec_iter, vstd::string::next_postcondition;

        match value {
            ConfigValue::Str(s) => {
                let mut chars = s.as_str().chars();
                match chars.next() {
                    None => Err(ConfigError::EmptyString),
                    Some(c) => match chars.next() {
                        None => Ok(c),
                        Some(_) => Err(ConfigError::NotSingleChar),
                    },
                }
            },
            _ => Err(ConfigError::NotAString),
        }
    }

    /// Sets `current` from the table's `field`, if it has one; a rejected
    /// value leaves `current` as it was.
    pub fn set_color_field(table: &Vec<(String, ConfigValue)>, field: &str, current: &mut Color) -> (r:
        Result<(), ConfigError>)
        ensures
            match lookup(table@, field@) {
                None => r is Ok && *final(current) == *old(current),
                Some(v) => match value_color(v) {
                    Ok(c) => r is Ok && *final(current) == c,
                    Err(e) => r == Err::<(), ConfigError>(e) && *final(current) == *old(current),
                },
            },
    {
        if let Some(value) = find_field(table, field) {
            match Config::toml_value_to_color(value) {
                Ok(c) => {
                    *current = c;
                },
                Err(e) => {
                    return Err(e);
                },
            }
        }
        Ok(())
    }

    /// Sets `current` from the table's `field`, if it has one; a rejected
    /// value leaves `current` as it was.
    pub fn set_charset_field(table: &Vec<(String, ConfigValue)>, field: &str, current: &mut char) -> (r:
        Result<(), ConfigError>)
        ensures
            match lookup(table@, field@) {
                None => r is Ok && *final(current) == *old(current),
                Some(v) => match value_char(v) {
                    Ok(c) => r is Ok && *final(current) == c,
                    Err(e) => r == Err::<(), ConfigError>(e) && *final(current) == *old(current),
                },
            },
    {
        if let Some(value) = find_field(table, field) {
            match Config::value_to_char(value) {
                Ok(c) => {
                    *current = c;
                },
                Err(e) => {
                    return Err(e);
                },
            }
        }
        Ok(())
    }
}

/// The configuration used where the file sets nothing.
pub open spec fn default_config() -> Config {
    Config {
        colorscheme: ColorScheme {
            null: Color::DarkGray,
            ascii_printable: Color::Blue,
            ascii_whitespace: Color::Cyan,
            ascii_other: Color::Yellow,
            non_ascii: Color::Green,
            accent: Color::Blue,
            primary: Color::White,
            border: Color::White,
            select: Color::DarkGray,
            background: Color::Reset,
        },
        charset: Charset {
            null: '.',
            ascii_whitespace: '\u{b7}',
            ascii_other: '\u{b0}',
            non_ascii: '\u{d7}',
        },
    }
}

impl Default for Config {
    fn default() -> (r: Config)
        ensures
            r == default_config(),
    {
        Config {
            colorscheme: ColorScheme {
                null: Color::DarkGray,
                ascii_printable: Color::Blue,
                ascii_whitespace: Color::Cyan,
                ascii_other: Color::Yellow,
                non_ascii: Color::Green,
                accent: Color::Blue,
                primary: Color::White,
                border: Color::White,
                select: Color::DarkGray,
                background: Color::Reset,
            },
            charset: Charset {
                null: '.',
                ascii_whitespace: '\u{b7}',
                ascii_other: '\u{b0}',
                non_ascii: '\u{d7}',
            },
        }
    }
}

/// The entries of the table under `name`; none where there is no such table.
pub open spec fn section(doc: Seq<(String, ConfigValue)>, name: Seq<char>) -> Seq<
    (String, ConfigValue),
> {
    match lookup(doc, name) {
        Some(ConfigValue::Table(t)) => t@,
        _ => Seq::empty(),
    }
}

/// The colour that the table sets for `field`, or `dflt` where it sets none
/// or a rejected one.
pub open spec fn color_or(t: Seq<(String, ConfigValue)>, field: Seq<char>, dflt: Color) -> Color {
    match lookup(t, field) {
        Some(v) => match value_color(v) {
            Ok(c) => c,
            Err(_) => dflt,
        },
        None => dflt,
    }
}

/// The character that the table sets for `field`, or `dflt` where it sets
/// none or a rejected one.
pub open spec fn char_or(t: Seq<(String, ConfigValue)>, field: Seq<char>, dflt: char) -> char {
    match lookup(t, field) {
        Some(v) => match value_char(v) {
            Ok(c) => c,
            Err(_) => dflt,
        },
        None => dflt,
    }
}

/// The rejection of the colour that the table sets for `field`, if any.
pub open spec fn color_report(t: Seq<(String, ConfigValue)>, field: Seq<char>) -> Seq<
    (Seq<char>, ConfigError),
> {
    match lookup(t, field) {
        Some(v) => match value_color(v) {
            Err(e) => seq![(field, e)],
            Ok(_) => Seq::empty(),
        },
        None => Seq::empty(),
    }
}

/// The rejection of the character that the table sets for `field`, if any.
pub open spec fn char_report(t: Seq<(String, ConfigValue)>, field: Seq<char>) -> Seq<
    (Seq<char>, ConfigError),
> {
    match lookup(t, field) {
        Some(v) => match value_char(v) {
            Err(e) => seq![(field, e)],
            Ok(_) => Seq::empty(),
        },
        None => Seq::empty(),
    }
}

pub open spec fn errors_view(v: Seq<FieldError>) -> Seq<(Seq<char>, ConfigError)> {
    v.map_values(|e: FieldError| (e.field@, e.error))
}

/// The configuration that a parsed file gives: each field of its `theme`
/// and `charset` tables that holds an acceptable value replaces the default.
pub open spec fn configured(doc: Seq<(String, ConfigValue)>) -> Config {
    let th = section(doc, "theme"@);
    let cs = section(doc, "charset"@);
    let d = default_config();
    Config {
        colorscheme: ColorScheme {
            null: color_or(th, "null"@, d.colorscheme.null),
            ascii_printable: color_or(th, "ascii_printable"@, d.colorscheme.ascii_printable),
            ascii_whitespace: color_or(th, "ascii_whitespace"@, d.colorscheme.ascii_whitespace),
            ascii_other: color_or(th, "ascii_other"@, d.colorscheme.ascii_other),
            non_ascii: color_or(th, "non_ascii"@, d.colorscheme.non_ascii),
            accent: color_or(th, "accent"@, d.colorscheme.accent),
            primary: color_or(th, "primary"@, d.colorscheme.primary),
            border: color_or(th, "border"@, d.colorscheme.border),
            select: color_or(th, "select"@, d.colorscheme.select),
            background: color_or(th, "background"@, d.colorscheme.background),
        },
        charset: Charset {
            null: char_or(cs, "null"@, d.charset.null),
            ascii_whitespace: char_or(cs, "ascii_whitespace"@, d.charset.ascii_whitespace),
            ascii_other: char_or(cs, "ascii_other"@, d.charset.ascii_other),
            non_ascii: char_or(cs, "non_ascii"@, d.charset.non_ascii),
        },
    }
}

/// The rejected fields of a parsed file, in the order the fields are read.
pub open spec fn config_report(doc: Seq<(String, ConfigValue)>) -> Seq<(Seq<char>, ConfigError)> {
    let th = section(doc, "theme"@);
    let cs = section(doc, "charset"@);
    color_report(th, "null"@) + color_report(th, "ascii_printable"@) + color_report(
        th,
        "ascii_whitespace"@,
    ) + color_report(th, "ascii_other"@) + color_report(th, "non_ascii"@) + color_report(
        th,
        "accent"@,
    ) + color_report(th, "select"@) + color_report(th, "primary"@) + color_report(th, "border"@)
        + color_report(th, "background"@) + char_report(cs, "null"@) + char_report(
        cs,
        "ascii_whitespace"@,
    ) + char_report(cs, "ascii_other"@) + char_report(cs, "non_ascii"@)
}

fn read_color(
    table: &Vec<(String, ConfigValue)>,
    field: &str,
    current: &mut Color,
    errors: &mut Vec<FieldError>,
)
    ensures
        *final(current) == color_or(table@, field@, *old(current)),
        errors_view(final(errors)@) == errors_view(old(errors)@) + color_report(table@, field@),
{
    let ghost before = errors@;
    if let Err(e) = Config::set_color_field(table, field, current) {
        errors.push(FieldError { field: field.to_owned(), error: e });
    }
    assert(errors_view(errors@) =~= errors_view(before) + color_report(table@, field@));
}

fn read_char(
    table: &Vec<(String, ConfigValue)>,
    field: &str,
    current: &mut char,
    errors: &mut Vec<FieldError>,
)
    ensures
        *final(current) == char_or(table@, field@, *old(current)),
        errors_view(final(errors)@) == errors_view(old(errors)@) + char_report(table@, field@),
{
    let ghost before = errors@;
    if let Err(e) = Config::set_charset_field(table, field, current) {
        errors.push(FieldError { field: field.to_owned(), error: e });
    }
    assert(errors_view(errors@) =~= errors_view(before) + char_report(table@, field@));
}

fn section_of<'a>(doc: &'a Vec<(String, ConfigValue)>, name: &str, empty: &'a Vec<(String, ConfigValue)>) -> (r: &'a Vec<(String, ConfigValue)>)
    requires
        empty@.len() == 0,
    ensures
        r@ == section(doc@, name@),
{
    match find_field(doc, name) {
        Some(ConfigValue::Table(t)) => t,
        _ => empty,
    }
}

impl Config {
    /// The configuration that a parsed file gives, and the fields it rejected.
    /// A rejected field keeps its default; the others are still read.
    pub fn read_config(doc: &Vec<(String, ConfigValue)>) -> (r: (Config, Vec<FieldError>))
        ensures
            r.0 == configured(doc@),
            errors_view(r.1@) == config_report(doc@),
    {
        let mut config = Config::default();
        let mut errors: Vec<FieldError> = Vec::new();
        let empty: Vec<(String, ConfigValue)> = Vec::new();
        let theme = section_of(doc, "theme", &empty);
        let charset = section_of(doc, "charset", &empty);
        let ghost e0 = errors@;
        read_color(theme, "null", &mut config.colorscheme.null, &mut errors);
        read_color(theme, "ascii_printable", &mut config.colorscheme.ascii_printable, &mut errors);
        read_color(theme, "ascii_whitespace", &mut config.colorscheme.ascii_whitespace, &mut errors);
        read_color(theme, "ascii_other", &mut config.colorscheme.ascii_other, &mut errors);
        read_color(theme, "non_ascii", &mut config.colorscheme.non_ascii, &mut errors);
        read_color(theme, "accent", &mut config.colorscheme.accent, &mut errors);
        read_color(theme, "select", &mut config.colorscheme.select, &mut errors);
        read_color(theme, "primary", &mut config.colorscheme.primary, &mut errors);
        read_color(theme, "border", &mut config.colorscheme.border, &mut errors);
        read_color(theme, "background", &mut config.colorscheme.background, &mut errors);
        read_char(charset, "null", &mut config.charset.null, &mut errors);
        read_char(charset, "ascii_whitespace", &mut config.charset.ascii_whitespace, &mut errors);
        read_char(charset, "ascii_other", &mut config.charset.ascii_other, &mut errors);
        read_char(charset, "non_ascii", &mut config.charset.non_ascii, &mut errors);
        assert(errors_view(e0) =~= Seq::empty());
        assert(errors_view(errors@) =~= config_report(doc@));
        (config, errors)
    }
}

} // verus!
