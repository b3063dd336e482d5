//! Colour settings: named hex colours and their conversion to RGB.
use vstd::prelude::*;

use crate::text::same_str;

verus! {

/// Eight named colours, each written as `#rrggbb`.
#[derive(Debug, Clone)]
pub struct ColorScheme {
    pub primary: String,
    pub secondary: String,
    pub accent: String,
    pub success: String,
    pub warning: String,
    pub error: String,
    pub text: String,
    pub text_dim: String,
}

/// The settings record kept between runs.
#[derive(Debug, Clone)]
pub struct Config {
    pub color_scheme: ColorScheme,
    pub theme: String,
}

/// The text with every leading `#` removed.
pub open spec fn strip_hashes(s: Seq<char>) -> Seq<char>
    decreases s.len(),
{
    if s.len() > 0 && s[0] == '#' {
        strip_hashes(s.subrange(1, s.len() as int))
    } else {
        s
    }
}

pub open spec fn is_hex_digit(c: char) -> bool {
    ('0' <= c && c <= '9') || ('a' <= c && c <= 'f') || ('A' <= c && c <= 'F')
}

pub open spec fn hex_value(c: char) -> int {
    if '0' <= c && c <= '9' {
        c as int - '0' as int
    } else if 'a' <= c && c <= 'f' {
        c as int - 'a' as int + 10
    } else {
        c as int - 'A' as int + 10
    }
}

/// A two-character base-16 number as `u8::from_str_radix` reads it: two digits,
/// or a plus sign and one digit.
pub open spec fn pair_value(a: char, b: char) -> Option<u8> {
    if a == '+' && is_hex_digit(b) {
        Some(hex_value(b) as u8)
    } else if is_hex_digit(a) && is_hex_digit(b) {
        Some((16 * hex_value(a) + hex_value(b)) as u8)
    } else {
        None
    }
}

/// The RGB triple that a `#rrggbb` text denotes.
pub open spec fn hex_rgb(hex: Seq<char>) -> Option<(u8, u8, u8)> {
    let h = strip_hashes(hex);
    if h.len() != 6 {
        None
    } else {
        match (pair_value(h[0], h[1]), pair_value(h[2], h[3]), pair_value(h[4], h[5])) {
            (Some(r), Some(g), Some(b)) => Some((r, g, b)),
            _ => None,
        }
    }
}

impl ColorScheme {
    /// The hex text stored under a colour name; unknown names fall back to `primary`.
    pub open spec fn hex_for(&self, name: Seq<char>) -> Seq<char> {
        if name == "primary"@ {
            self.primary@
        } else if name == "secondary"@ {
            self.secondary@
        } else if name == "accent"@ {
            self.accent@
        } else if name == "success"@ {
            self.success@
        } else if name == "warning"@ {
            self.warning@
        } else if name == "error"@ {
            self.error@
        } else if name == "text"@ {
            self.text@
        } else if name == "text_dim"@ {
            self.text_dim@
        } else {
            self.primary@
        }
    }
}

fn digit_value(c: char) -> (r: Option<u8>)
    ensures
        r is Some <==> is_hex_digit(c),
        r is Some ==> r->Some_0 as int == hex_value(c),
{
    if '0' <= c && c <= '9' {
        Some(((c as u32) - ('0' as u32)) as u8)
    } else if 'a' <= c && c <= 'f' {
        Some(((c as u32) - ('a' as u32) + 10) as u8)
    } else if 'A' <= c && c <= 'F' {
        Some(((c as u32) - ('A' as u32) + 10) as u8)
    } else {
        None
    }
}

fn parse_pair(a: char, b: char) -> (r: Option<u8>)
    ensures
        r == pair_value(a, b),
{
    let lo = digit_value(b);
    match lo {
        None => None,
        Some(l) => {
            if a == '+' {
                Some(l)
            } else {
                match digit_value(a) {
                    None => None,
                    Some(h) => Some(16 * h + l),
                }
            }
        },
    }
}

impl Default for ColorScheme {
    fn default() -> (r: Self)
        ensures
            r.primary@ == "#fe640b"@,
            r.secondary@ == "#ffffff"@,
            r.accent@ == "#00ff00"@,
            r.success@ == "#00ff00"@,
            r.warning@ == "#ffa500"@,
            r.error@ == "#ff0000"@,
            r.text@ == "#ffffff"@,
            r.text_dim@ == "#808080"@,
    {
        ColorScheme {
            primary: String::from_str("#fe640b"),
            secondary: String::from_str("#ffffff"),
            accent: String::from_str("#00ff00"),
            success: String::from_str("#00ff00"),
            warning: String::from_str("#ffa500"),
            error: String::from_str("#ff0000"),
            text: String::from_str("#ffffff"),
            text_dim: String::from_str("#808080"),
        }
    }
}

impl ColorScheme {
    /// Reads `#rrggbb` (any number of leading `#`) into red, green and blue.
    pub fn hex_to_rgb(hex: &str) -> (r: Option<(u8, u8, u8)>)
        ensures
            r == hex_rgb(hex@),
    {
        let n = hex.unicode_len();
        let mut start: usize = 0;
        assert(hex@.subrange(0, n as int) =~= hex@);
        while start < n && hex.get_char(start) == '#'
            invariant
                n == hex@.len(),
                start <= n,
                strip_hashes(hex@) == strip_hashes(hex@.subrange(start as int, n as int)),
            decreases n - start,
        {
            proof {
                let s = hex@.subrange(start as int, n as int);
                assert(s.subrange(1, s.len() as int) =~= hex@.subrange(start + 1, n as int));
            }
            start += 1;
        }
        let ghost h = hex@.subrange(start as int, n as int);
        assert(strip_hashes(h) == h);
        if n - start != 6 {
            return None;
        }
        let r = parse_pair(hex.get_char(start), hex.get_char(start + 1));
        let g = parse_pair(hex.get_char(start + 2), hex.get_char(start + 3));
        let b = parse_pair(hex.get_char(start + 4), hex.get_char(start + 5));
        match (r, g, b) {
            (Some(r), Some(g), Some(b)) => Some((r, g, b)),
            _ => None,
        }
    }

    /// The hex text stored under a colour name.
    pub fn color_hex(&self, color_name: &str) -> (r: &String)
        ensures
            r@ == self.hex_for(color_name@),
    {
        if same_str(color_name, "primary") {
            &self.primary
        } else if same_str(color_name, "secondary") {
            &self.secondary
        } else if same_str(color_name, "accent") {
            &self.accent
        } else if same_str(color_name, "success") {
            &self.success
        } else if same_str(color_name, "warning") {
            &self.warning
        } else if same_str(color_name, "error") {
            &self.error
        } else if same_str(color_name, "text") {
            &self.text
        } else if same_str(color_name, "text_dim") {
            &self.text_dim
        } else {
            &self.primary
        }
    }

    /// The RGB value of a named colour, or `None` when its text is not a valid hex colour.
    pub fn rgb_of(&self, color_name: &str) -> (r: Option<(u8, u8, u8)>)
        ensures
            r == hex_rgb(self.hex_for(color_name@)),
    {
        ColorScheme::hex_to_rgb(self.color_hex(color_name).as_str())
    }
}

impl Default for Config {
    fn default() -> (r: Self)
        ensures
            r.theme@ == "default"@,
            r.color_scheme.primary@ == "#fe640b"@,
    {
        Config { color_scheme: ColorScheme::default(), theme: String::from_str("default") }
    }
}

impl Config {
    pub fn get_color_scheme(&self) -> (r: &ColorScheme)
        ensures
            r == &self.color_scheme,
    {
        &self.color_scheme
    }
}

} // verus!
