//! RGB colours and their textual forms.
use vstd::prelude::*;
use vstd::string::*;
use crate::error::PigletError;
use crate::utils::fixed::ONE;
use crate::utils::text::string_of;

verus! {

/// What `csscolorparser` reads from a colour string (hex, named, or functional
/// notation), as 8-bit channels; `None` when it refuses the string.
pub uninterp spec fn css_rgb(s: Seq<char>) -> Option<(u8, u8, u8)>;

/// Relies on `csscolorparser::parse` (through `str::parse`) for the colour a string
/// names, and on `csscolorparser::Color::to_rgba8` for its 8-bit channels. The
/// channels are rounded to the nearest integer (`rgb(127.5, 0, 0)` has red 128); hex
/// and named colours come out exact either way.
#[verifier::external_body]
fn parse_css(s: &str) -> (r: Option<(u8, u8, u8)>)
    ensures
        r == css_rgb(s@),
{
    match s.parse::<csscolorparser::Color>() {
        Ok(c) => {
            let v = c.to_rgba8();
            Some((v[0], v[1], v[2]))
        },
        Err(_) => None,
    }
}

/// A colour with 8-bit red, green and blue channels.
#[derive(Clone, Copy, Debug, PartialEq, Eq, Structural)]
pub struct Color {
    pub r: u8,
    pub g: u8,
    pub b: u8,
}

/// `t` held to `[0, ONE]`.
pub open spec fn clamp_unit(t: int) -> int {
    if t < 0 {
        0
    } else if t > ONE {
        ONE as int
    } else {
        t
    }
}

/// The channel a fraction `t` (fixed point, within `[0, ONE]`) of the way from `a`
/// to `b`, rounded down.
pub open spec fn mix(a: int, b: int, t: int) -> int {
    (a * ONE + (b - a) * t) / ONE as int
}

/// The colour a fraction `t` (held to `[0, ONE]`) of the way from `a` to `b`.
pub open spec fn mixed(a: Color, b: Color, t: int) -> Color {
    let u = clamp_unit(t);
    Color {
        r: mix(a.r as int, b.r as int, u) as u8,
        g: mix(a.g as int, b.g as int, u) as u8,
        b: mix(a.b as int, b.b as int, u) as u8,
    }
}

/// The decimal digits of `n`, most significant first.
pub open spec fn decimal(n: nat) -> Seq<char>
    decreases n,
{
    if n < 10 {
        seq![digit_char(n)]
    } else {
        decimal(n / 10) + seq![digit_char(n % 10)]
    }
}

/// The character of a decimal digit.
pub open spec fn digit_char(d: nat) -> char {
    seq!['0', '1', '2', '3', '4', '5', '6', '7', '8', '9'][d as int]
}

fn digit(d: u8) -> (c: char)
    requires
        d < 10,
    ensures
        c == digit_char(d as nat),
{
    if d == 0 {
        '0'
    } else if d == 1 {
        '1'
    } else if d == 2 {
        '2'
    } else if d == 3 {
        '3'
    } else if d == 4 {
        '4'
    } else if d == 5 {
        '5'
    } else if d == 6 {
        '6'
    } else if d == 7 {
        '7'
    } else if d == 8 {
        '8'
    } else {
        '9'
    }
}

/// The escape sequence that sets a 24-bit foreground colour.
pub open spec fn ansi_of(c: Color) -> Seq<char> {
    seq!['\u{1b}', '[', '3', '8', ';', '2', ';'] + decimal(c.r as nat) + seq![';'] + decimal(
        c.g as nat,
    ) + seq![';'] + decimal(c.b as nat) + seq!['m']
}

fn push_decimal(out: &mut Vec<char>, n: u8)
    ensures
        final(out)@ == old(out)@ + decimal(n as nat),
{
    let ghost before = out@;
    let ghost m = n as nat;
    if n >= 100 {
        out.push(digit(n / 100));
        out.push(digit((n / 10) % 10));
        out.push(digit(n % 10));
        proof {
            assert(decimal(m / 100) == seq![digit_char(m / 100)]);
            assert(decimal(m / 10) == decimal((m / 10) / 10) + seq![digit_char((m / 10) % 10)]);
            assert((m / 10) / 10 == m / 100);
            assert(decimal(m) == decimal(m / 10) + seq![digit_char(m % 10)]);
            assert(out@ =~= before + decimal(m));
        }
    } else if n >= 10 {
        out.push(digit(n / 10));
        out.push(digit(n % 10));
        proof {
            assert(decimal(m / 10) == seq![digit_char(m / 10)]);
            assert(decimal(m) == decimal(m / 10) + seq![digit_char(m % 10)]);
            assert(out@ =~= before + decimal(m));
        }
    } else {
        out.push(digit(n));
        proof {
            assert(decimal(m) == seq![digit_char(m)]);
            assert(out@ =~= before + decimal(m));
        }
    }
}

impl Color {
    /// The colour with these channels.
    pub fn new(r: u8, g: u8, b: u8) -> (c: Self)
        ensures
            c == (Color { r, g, b }),
    {
        Color { r, g, b }
    }

    /// Reads a colour written in CSS syntax (`#FF5733`, `red`, `rgb(...)`).
    pub fn from_hex(hex: &str) -> (r: Result<Self, PigletError>)
        ensures
            match css_rgb(hex@) {
                Some(v) => r == Ok::<Color, PigletError>(Color { r: v.0, g: v.1, b: v.2 }),
                None => r matches Err(PigletError::InvalidColor(s)) && s@ == hex@,
            },
    {
        match parse_css(hex) {
            Some((r, g, b)) => Ok(Color { r, g, b }),
            None => Err(PigletError::InvalidColor(String::from_str(hex))),
        }
    }

    /// Reads a colour written in CSS syntax.
    pub fn parse(color_str: &str) -> (r: Result<Self, PigletError>)
        ensures
            match css_rgb(color_str@) {
                Some(v) => r == Ok::<Color, PigletError>(Color { r: v.0, g: v.1, b: v.2 }),
                None => r matches Err(PigletError::InvalidColor(s)) && s@ == color_str@,
            },
    {
        Self::from_hex(color_str)
    }

    /// The colour a fraction `t` (fixed point, held to `[0, ONE]`) of the way to
    /// `other`, each channel rounded down.
    pub fn interpolate(&self, other: &Color, t: i64) -> (c: Color)
        ensures
            c.r == mix(self.r as int, other.r as int, clamp_unit(t as int)),
            c.g == mix(self.g as int, other.g as int, clamp_unit(t as int)),
            c.b == mix(self.b as int, other.b as int, clamp_unit(t as int)),
    {
        let t = if t < 0 {
            0
        } else if t > ONE {
            ONE
        } else {
            t
        };
        Color {
            r: mix_channel(self.r, other.r, t),
            g: mix_channel(self.g, other.g, t),
            b: mix_channel(self.b, other.b, t),
        }
    }

    /// The escape sequence that sets this colour as the foreground.
    pub fn to_ansi(&self) -> (s: String)
        ensures
            s@ == ansi_of(*self),
    {
        let mut out: Vec<char> = Vec::new();
        out.push('\u{1b}');
        out.push('[');
        out.push('3');
        out.push('8');
        out.push(';');
        out.push('2');
        out.push(';');
        push_decimal(&mut out, self.r);
        out.push(';');
        push_decimal(&mut out, self.g);
        out.push(';');
        push_decimal(&mut out, self.b);
        out.push('m');
        proof {
            assert(out@ =~= ansi_of(*self));
        }
        string_of(&out)
    }
}

fn mix_channel(a: u8, b: u8, t: i64) -> (r: u8)
    requires
        0 <= t <= ONE,
    ensures
        r == mix(a as int, b as int, t as int),
{
    proof {
        let ai = a as int;
        let bi = b as int;
        let ti = t as int;
        assert(0 <= ai * ONE + (bi - ai) * ti <= 255 * ONE) by (nonlinear_arith)
            requires
                0 <= ai <= 255,
                0 <= bi <= 255,
                0 <= ti <= ONE,
        ;
    }
    let num: i64 = a as i64 * ONE + (b as i64 - a as i64) * t;
    proof {
        crate::utils::fixed::lemma_div_bounds(num as int, ONE as int, 0, 255);
    }
    (num / ONE) as u8
}

} // verus!
