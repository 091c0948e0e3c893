use vstd::prelude::*;
use vstd::string::StringExecFns;

verus! {

/// A color of three channels of eight bits.
#[derive(Default, Clone, Copy, Debug, PartialEq, Eq, Structural)]
pub struct Color {
    pub r: u8,
    pub g: u8,
    pub b: u8,
}

/// Why a text is not a color.
#[derive(Clone, Copy, Debug, PartialEq, Eq, Structural)]
pub enum ParseColorError {
    /// The text is not a number sign followed by six hexadecimal digits.
    InvalidFormat,
}

impl ParseColorError {
    /// The error in words.
    pub fn to_string(&self) -> (r: String)
        ensures
            r@ == "Color string must be hex color code: `#RRGGBB`"@,
    {
        String::from_str("Color string must be hex color code: `#RRGGBB`")
    }
}

/// Whether a byte is a hexadecimal digit in ASCII, of either case.
pub open spec fn is_hex_digit(byte: u8) -> bool {
    (0x30 <= byte <= 0x39) || (0x41 <= byte <= 0x46) || (0x61 <= byte <= 0x66)
}

/// The number that a hexadecimal digit stands for.
pub open spec fn hex_value(byte: u8) -> int {
    if 0x30 <= byte <= 0x39 {
        byte - 0x30
    } else if 0x41 <= byte <= 0x46 {
        byte - 0x41 + 10
    } else {
        byte - 0x61 + 10
    }
}

/// The number that two hexadecimal digits stand for.
pub open spec fn hex_pair(high: u8, low: u8) -> int {
    hex_value(high) * 16 + hex_value(low)
}

/// Whether the bytes are a color code: a number sign and six hexadecimal
/// digits.
pub open spec fn is_color_code(bytes: Seq<u8>) -> bool {
    &&& bytes.len() == 7
    &&& bytes[0] == 0x23
    &&& forall|i: int| 1 <= i < 7 ==> is_hex_digit(#[trigger] bytes[i])
}

/// The color that a color code stands for: two digits for each of red,
/// green and blue.
pub open spec fn color_of_code(bytes: Seq<u8>) -> Color {
    Color {
        r: hex_pair(bytes[1], bytes[2]) as u8,
        g: hex_pair(bytes[3], bytes[4]) as u8,
        b: hex_pair(bytes[5], bytes[6]) as u8,
    }
}

/// The upper-case hexadecimal digit of a number below sixteen.
pub open spec fn hex_digit(d: int) -> Seq<char> {
    if d == 0 {
        "0"@
    } else if d == 1 {
        "1"@
    } else if d == 2 {
        "2"@
    } else if d == 3 {
        "3"@
    } else if d == 4 {
        "4"@
    } else if d == 5 {
        "5"@
    } else if d == 6 {
        "6"@
    } else if d == 7 {
        "7"@
    } else if d == 8 {
        "8"@
    } else if d == 9 {
        "9"@
    } else if d == 10 {
        "A"@
    } else if d == 11 {
        "B"@
    } else if d == 12 {
        "C"@
    } else if d == 13 {
        "D"@
    } else if d == 14 {
        "E"@
    } else {
        "F"@
    }
}

/// A channel written as two upper-case hexadecimal digits.
pub open spec fn channel_code(value: u8) -> Seq<char> {
    hex_digit(value as int / 16) + hex_digit(value as int % 16)
}

/// The color code of a color.
pub open spec fn code_of_color(c: Color) -> Seq<char> {
    "#"@ + channel_code(c.r) + channel_code(c.g) + channel_code(c.b)
}

fn digit_value(byte: u8) -> (r: Option<u8>)
    ensures
        match r {
            Some(v) => is_hex_digit(byte) && v == hex_value(byte),
            None => !is_hex_digit(byte),
        },
{
    if 0x30 <= byte && byte <= 0x39 {
        Some(byte - 0x30)
    } else if 0x41 <= byte && byte <= 0x46 {
        Some(byte - 0x41 + 10)
    } else if 0x61 <= byte && byte <= 0x66 {
        Some(byte - 0x61 + 10)
    } else {
        None
    }
}

fn hex_digit_name(d: u8) -> (r: &'static str)
    requires
        d < 16,
    ensures
        r@ == hex_digit(d as int),
{
    if d == 0 {
        "0"
    } else if d == 1 {
        "1"
    } else if d == 2 {
        "2"
    } else if d == 3 {
        "3"
    } else if d == 4 {
        "4"
    } else if d == 5 {
        "5"
    } else if d == 6 {
        "6"
    } else if d == 7 {
        "7"
    } else if d == 8 {
        "8"
    } else if d == 9 {
        "9"
    } else if d == 10 {
        "A"
    } else if d == 11 {
        "B"
    } else if d == 12 {
        "C"
    } else if d == 13 {
        "D"
    } else if d == 14 {
        "E"
    } else {
        "F"
    }
}

impl Color {
    pub fn new(r: u8, g: u8, b: u8) -> (c: Self)
        ensures
            c == (Color { r, g, b }),
    {
        Color { r, g, b }
    }

    /// Reads a color code.
    pub fn parse(bytes: &[u8]) -> (r: Result<Color, ParseColorError>)
        ensures
            r == if is_color_code(bytes@) {
                Ok::<Color, ParseColorError>(color_of_code(bytes@))
            } else {
                Err::<Color, ParseColorError>(ParseColorError::InvalidFormat)
            },
    {
        if bytes.len() != 7 || bytes[0] != 0x23 {
            return Err(ParseColorError::InvalidFormat);
        }
        let r_high = match digit_value(bytes[1]) {
            Some(v) => v,
            None => {
                return Err(ParseColorError::InvalidFormat);
            },
        };
        let r_low = match digit_value(bytes[2]) {
            Some(v) => v,
            None => {
                return Err(ParseColorError::InvalidFormat);
            },
        };
        let g_high = match digit_value(bytes[3]) {
            Some(v) => v,
            None => {
                return Err(ParseColorError::InvalidFormat);
            },
        };
        let g_low = match digit_value(bytes[4]) {
            Some(v) => v,
            None => {
                return Err(ParseColorError::InvalidFormat);
            },
        };
        let b_high = match digit_value(bytes[5]) {
            Some(v) => v,
            None => {
                return Err(ParseColorError::InvalidFormat);
            },
        };
        let b_low = match digit_value(bytes[6]) {
            Some(v) => v,
            None => {
                return Err(ParseColorError::InvalidFormat);
            },
        };
        Ok(Color { r: r_high * 16 + r_low, g: g_high * 16 + g_low, b: b_high * 16 + b_low })
    }

    /// Reads a color code from a text, taken by its bytes.
    pub fn try_from(s: String) -> (r: Result<Color, ParseColorError>)
        ensures
            r == if is_color_code(vstd::utf8::encode_utf8(s@)) {
                Ok::<Color, ParseColorError>(color_of_code(vstd::utf8::encode_utf8(s@)))
            } else {
                Err::<Color, ParseColorError>(ParseColorError::InvalidFormat)
            },
    {
        Color::parse(s.as_str().as_bytes())
    }

    /// Writes the color as a color code, with upper-case digits.
    pub fn to_string(&self) -> (r: String)
        ensures
            r@ == code_of_color(*self),
    {
        let mut s = String::from_str("#");
        s.append(hex_digit_name(self.r / 16));
        s.append(hex_digit_name(self.r % 16));
        s.append(hex_digit_name(self.g / 16));
        s.append(hex_digit_name(self.g % 16));
        s.append(hex_digit_name(self.b / 16));
        s.append(hex_digit_name(self.b % 16));
        assert(s@ =~= code_of_color(*self));
        s
    }
}

} // verus!
