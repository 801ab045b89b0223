//! Fixed lists of colours, indexed cyclically.
use vstd::prelude::*;
use crate::error::PigletError;
use crate::parser::color::{css_rgb, Color};

verus! {

/// White, the colour of an empty palette.
pub open spec fn white() -> Color {
    Color { r: 255, g: 255, b: 255 }
}

/// The colour at `index`, counting round the palette; white for an empty one.
pub open spec fn palette_at(cs: Seq<Color>, index: int) -> Color {
    if cs.len() == 0 {
        white()
    } else {
        cs[index % cs.len() as int]
    }
}

/// The colour `css_rgb` reads from `s`, when it reads one.
pub open spec fn css_color(s: Seq<char>) -> Color {
    let v = css_rgb(s)->Some_0;
    Color { r: v.0, g: v.1, b: v.2 }
}

/// An ordered list of colours, indexed cyclically.
#[derive(Clone, Debug)]
pub struct ColorPalette {
    colors: Vec<Color>,
}

impl View for ColorPalette {
    type V = Seq<Color>;

    closed spec fn view(&self) -> Seq<Color> {
        self.colors@
    }
}

impl ColorPalette {
    /// The palette of these colours, in order.
    pub fn new(colors: Vec<Color>) -> (r: Self)
        ensures
            r@ == colors@,
    {
        ColorPalette { colors }
    }

    /// Reads each string as a CSS colour; the first that does not read is the error.
    pub fn from_strings(color_strs: &[String]) -> (r: Result<Self, PigletError>)
        ensures
            (forall|i: int| 0 <= i < color_strs@.len() ==> #[trigger] css_rgb(color_strs@[i]@) is Some)
                ==> (r matches Ok(p) && p@.len() == color_strs@.len() && forall|i: int|
                0 <= i < color_strs@.len() ==> #[trigger] p@[i] == css_color(color_strs@[i]@)),
            !(forall|i: int| 0 <= i < color_strs@.len() ==> #[trigger] css_rgb(color_strs@[i]@) is Some)
                ==> exists|i: int|
                0 <= i < color_strs@.len() && css_rgb(#[trigger] color_strs@[i]@) is None && (
                r matches Err(PigletError::InvalidColor(s)) && s@ == color_strs@[i]@),
    {
        let mut colors: Vec<Color> = Vec::new();
        let mut i: usize = 0;
        while i < color_strs.len()
            invariant
                i <= color_strs@.len(),
                colors@.len() == i,
                forall|k: int| 0 <= k < i ==> #[trigger] css_rgb(color_strs@[k]@) is Some,
                forall|k: int|
                    0 <= k < i ==> #[trigger] colors@[k] == css_color(color_strs@[k]@),
            decreases color_strs@.len() - i,
        {
            match Color::parse(color_strs[i].as_str()) {
                Ok(c) => {
                    colors.push(c);
                },
                Err(e) => {
                    proof {
                        assert(css_rgb(color_strs@[i as int]@) is None);
                    }
                    return Err(e);
                },
            }
            i = i + 1;
        }
        Ok(ColorPalette { colors })
    }

    /// The colour at `index`, counting round the palette; white for an empty one.
    pub fn get_color(&self, index: usize) -> (c: Color)
        ensures
            c == palette_at(self@, index as int),
    {
        if self.colors.len() == 0 {
            return Color::new(255, 255, 255);
        }
        self.colors[index % self.colors.len()]
    }

    /// Number of colours.
    pub fn len(&self) -> (r: usize)
        ensures
            r == self@.len(),
    {
        self.colors.len()
    }

    /// Whether there are no colours.
    pub fn is_empty(&self) -> (r: bool)
        ensures
            r == (self@.len() == 0),
    {
        self.colors.len() == 0
    }

    /// Red, orange, yellow, green, blue, indigo, violet.
    pub fn rainbow() -> (r: Self)
        ensures
            r@ == seq![
                Color { r: 0xff, g: 0x00, b: 0x00 },
                Color { r: 0xff, g: 0x7f, b: 0x00 },
                Color { r: 0xff, g: 0xff, b: 0x00 },
                Color { r: 0x00, g: 0xff, b: 0x00 },
                Color { r: 0x00, g: 0x00, b: 0xff },
                Color { r: 0x4b, g: 0x00, b: 0x82 },
                Color { r: 0x94, g: 0x00, b: 0xd3 },
            ],
    {
        let colors = vec![
            Color::new(0xff, 0x00, 0x00),
            Color::new(0xff, 0x7f, 0x00),
            Color::new(0xff, 0xff, 0x00),
            Color::new(0x00, 0xff, 0x00),
            Color::new(0x00, 0x00, 0xff),
            Color::new(0x4b, 0x00, 0x82),
            Color::new(0x94, 0x00, 0xd3),
        ];
        proof {
            assert(colors@ =~= seq![
                Color { r: 0xff, g: 0x00, b: 0x00 },
                Color { r: 0xff, g: 0x7f, b: 0x00 },
                Color { r: 0xff, g: 0xff, b: 0x00 },
                Color { r: 0x00, g: 0xff, b: 0x00 },
                Color { r: 0x00, g: 0x00, b: 0xff },
                Color { r: 0x4b, g: 0x00, b: 0x82 },
                Color { r: 0x94, g: 0x00, b: 0xd3 },
            ]);
        }
        ColorPalette { colors }
    }

    /// Navy, blue, royal blue, sky blue, light blue.
    pub fn ocean() -> (r: Self)
        ensures
            r@ == seq![
                Color { r: 0x00, g: 0x00, b: 0x80 },
                Color { r: 0x00, g: 0x00, b: 0xff },
                Color { r: 0x41, g: 0x69, b: 0xe1 },
                Color { r: 0x87, g: 0xce, b: 0xeb },
                Color { r: 0xad, g: 0xd8, b: 0xe6 },
            ],
    {
        let colors = vec![
            Color::new(0x00, 0x00, 0x80),
            Color::new(0x00, 0x00, 0xff),
            Color::new(0x41, 0x69, 0xe1),
            Color::new(0x87, 0xce, 0xeb),
            Color::new(0xad, 0xd8, 0xe6),
        ];
        proof {
            assert(colors@ =~= seq![
                Color { r: 0x00, g: 0x00, b: 0x80 },
                Color { r: 0x00, g: 0x00, b: 0xff },
                Color { r: 0x41, g: 0x69, b: 0xe1 },
                Color { r: 0x87, g: 0xce, b: 0xeb },
                Color { r: 0xad, g: 0xd8, b: 0xe6 },
            ]);
        }
        ColorPalette { colors }
    }
}

impl Default for ColorPalette {
    fn default() -> (r: Self)
        ensures
            r@ == Self::rainbow_spec(),
    {
        Self::rainbow()
    }
}

impl ColorPalette {
    /// The colours of the rainbow palette.
    pub open spec fn rainbow_spec() -> Seq<Color> {
        seq![
            Color { r: 0xff, g: 0x00, b: 0x00 },
            Color { r: 0xff, g: 0x7f, b: 0x00 },
            Color { r: 0xff, g: 0xff, b: 0x00 },
            Color { r: 0x00, g: 0xff, b: 0x00 },
            Color { r: 0x00, g: 0x00, b: 0xff },
            Color { r: 0x4b, g: 0x00, b: 0x82 },
            Color { r: 0x94, g: 0x00, b: 0xd3 },
        ]
    }
}

/// Palette lookup is cyclic: index `i` and index `i + n * len` give the same colour.
pub proof fn lemma_palette_cyclic(cs: Seq<Color>, i: nat, n: nat)
    ensures
        palette_at(cs, i as int) == palette_at(cs, (i + n * cs.len()) as int),
{
    if cs.len() > 0 {
        vstd::arithmetic::div_mod::lemma_mod_multiples_vanish(n as int, i as int, cs.len() as int);
        assert(i + n * cs.len() == cs.len() * n + i) by (nonlinear_arith);
    }
}

} // verus!
