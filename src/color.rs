//! The colour engine: no colour, a palette, or a gradient.
use vstd::prelude::*;
use crate::animation::effects::count_of;
use crate::error::PigletError;
use crate::parser::color::{css_rgb, Color};
use crate::parser::gradient::{
    all_read, gradient_color, gradient_parts, sample_point, stop_values, unread,
};
use crate::utils::fixed::ONE;

pub mod apply;
pub mod gradient;
pub mod palette;

pub use gradient::GradientEngine;
pub use palette::ColorPalette;

verus! {

use palette::palette_at;

/// Where colours come from.
#[derive(Clone, Debug)]
pub enum ColorMode {
    NoColor,
    Palette(ColorPalette),
    Gradient(GradientEngine),
}

/// The palette index for progress `t` in a palette of `len` colours:
/// `floor(t * len)` (fixed point), 0 for negative `t`, at most `usize::MAX`.
pub open spec fn palette_index(t: int, len: int) -> int {
    let q = count_of(t * len, ONE as int);
    if q > usize::MAX {
        usize::MAX as int
    } else {
        q
    }
}

/// The colours `get_colors` gives for `steps` samples in a mode.
pub open spec fn engine_colors(mode: ColorMode, steps: int) -> Seq<Color> {
    match mode {
        ColorMode::NoColor => seq![],
        ColorMode::Palette(p) => Seq::new(steps as nat, |i: int| palette_at(p@, i)),
        ColorMode::Gradient(g) => Seq::new(
            steps as nat,
            |i: int| gradient_color(g@, sample_point(i, steps)),
        ),
    }
}

/// The colour source for one playback.
pub struct ColorEngine {
    mode: ColorMode,
}

impl ColorEngine {
    /// The current mode.
    pub closed spec fn spec_mode(&self) -> ColorMode {
        self.mode
    }

    /// An engine with no colours.
    pub fn new() -> (r: Self)
        ensures
            r.spec_mode() is NoColor,
    {
        ColorEngine { mode: ColorMode::NoColor }
    }

    /// Switches to a palette read from `palette`, when it is given and not empty.
    pub fn with_palette(self, palette: Option<&[String]>) -> (r: Result<Self, PigletError>)
        ensures
            match palette {
                Some(cs) => cs@.len() > 0 ==> ((forall|i: int|
                    0 <= i < cs@.len() ==> #[trigger] css_rgb(cs@[i]@) is Some) ==> (r matches Ok(
                    e,
                ) && e.spec_mode() matches ColorMode::Palette(p) && p@.len() == cs@.len()
                    && forall|i: int|
                    0 <= i < cs@.len() ==> #[trigger] p@[i] == palette::css_color(cs@[i]@)))
                    && (!(forall|i: int| 0 <= i < cs@.len() ==> #[trigger] css_rgb(cs@[i]@) is Some) ==> exists|i: int|
                    0 <= i < cs@.len() && css_rgb(#[trigger] cs@[i]@) is None && (
                    r matches Err(PigletError::InvalidColor(x)) && x@ == cs@[i]@)),
                None => true,
            },
            palette is None || palette->Some_0@.len() == 0 ==> (r matches Ok(e) && e.spec_mode()
                == self.spec_mode()),
    {
        if let Some(colors) = palette {
            if colors.len() > 0 {
                let p = ColorPalette::from_strings(colors)?;
                return Ok(ColorEngine { mode: ColorMode::Palette(p) });
            }
        }
        Ok(self)
    }

    /// Switches to the gradient `gradient` describes, when it is given.
    pub fn with_gradient(self, gradient: Option<&str>) -> (r: Result<Self, PigletError>)
        ensures
            gradient is None ==> (r matches Ok(e) && e.spec_mode() == self.spec_mode()),
            gradient matches Some(s) ==> {
                &&& gradient_parts(s@) is None ==> (r matches Err(PigletError::InvalidGradient(e))
                    && e@ == s@)
                &&& gradient_parts(s@) is Some && all_read(gradient_parts(s@)->Some_0.0) ==> (r matches Ok(
                    e,
                ) && e.spec_mode() matches ColorMode::Gradient(g) && g@ == stop_values(
                    gradient_parts(s@)->Some_0.0,
                ))
                &&& gradient_parts(s@) is Some && !all_read(gradient_parts(s@)->Some_0.0) ==> (r matches Err(
                    PigletError::InvalidColor(e),
                ) && unread(gradient_parts(s@)->Some_0.0, e@))
            },
    {
        if let Some(g) = gradient {
            let engine = GradientEngine::from_string(g)?;
            return Ok(ColorEngine { mode: ColorMode::Gradient(engine) });
        }
        Ok(self)
    }

    /// Whether any colours are configured.
    pub fn has_colors(&self) -> (r: bool)
        ensures
            r == !(self.spec_mode() is NoColor),
    {
        match &self.mode {
            ColorMode::NoColor => false,
            _ => true,
        }
    }

    /// A palette's colour at `index`, or a gradient's at `t`.
    pub fn get_color(&self, t: i64, index: usize) -> (r: Option<Color>)
        ensures
            r == match self.spec_mode() {
                ColorMode::NoColor => None,
                ColorMode::Palette(p) => Some(palette_at(p@, index as int)),
                ColorMode::Gradient(g) => Some(gradient_color(g@, t as int)),
            },
    {
        match &self.mode {
            ColorMode::NoColor => None,
            ColorMode::Palette(p) => Some(p.get_color(index)),
            ColorMode::Gradient(g) => Some(g.color_at(t)),
        }
    }

    /// `steps` colours: the palette's first `steps` (cyclically), or the gradient
    /// sampled at `steps` evenly spaced points; none without colours.
    pub fn get_colors(&self, steps: usize) -> (r: Vec<Color>)
        ensures
            r@ == engine_colors(self.spec_mode(), steps as int),
    {
        match &self.mode {
            ColorMode::NoColor => {
                let r: Vec<Color> = Vec::new();
                proof {
                    assert(r@ =~= engine_colors(self.spec_mode(), steps as int));
                }
                r
            },
            ColorMode::Palette(p) => {
                let mut r: Vec<Color> = Vec::new();
                let mut i: usize = 0;
                while i < steps
                    invariant
                        i <= steps,
                        r@.len() == i,
                        forall|k: int| 0 <= k < i ==> #[trigger] r@[k] == palette_at(p@, k),
                    decreases steps - i,
                {
                    r.push(p.get_color(i));
                    i = i + 1;
                }
                proof {
                    assert(r@ =~= engine_colors(self.spec_mode(), steps as int));
                }
                r
            },
            ColorMode::Gradient(g) => {
                let r = g.colors(steps);
                proof {
                    assert(r@ =~= engine_colors(self.spec_mode(), steps as int));
                }
                r
            },
        }
    }

    /// The colour for progress `t` (fixed point): the palette entry at
    /// `floor(t * len)` (cyclically; 0 for negative `t`), or the gradient at `t`
    /// held to `[0, ONE]`.
    pub fn color_at(&self, t: i64) -> (r: Option<Color>)
        ensures
            r == match self.spec_mode() {
                ColorMode::NoColor => None,
                ColorMode::Palette(p) => Some(palette_at(p@, palette_index(t as int, p@.len() as int))),
                ColorMode::Gradient(g) => Some(gradient_color(g@, t as int)),
            },
    {
        match &self.mode {
            ColorMode::NoColor => None,
            ColorMode::Palette(p) => {
                let n = p.len();
                let idx: usize = if t <= 0 {
                    proof {
                        assert(t * n <= 0) by (nonlinear_arith)
                            requires
                                t <= 0,
                                n >= 0,
                        ;
                    }
                    0
                } else {
                    proof {
                        assert(0 <= t * n <= 0x7fff_ffff_ffff_ffff * 0xffff_ffff_ffff_ffff) by (
                        nonlinear_arith)
                            requires
                                0 < t <= 0x7fff_ffff_ffff_ffff,
                                0 <= n <= 0xffff_ffff_ffff_ffff,
                        ;
                    }
                    let q: u128 = (t as u128) * (n as u128) / (ONE as u128);
                    if q > usize::MAX as u128 {
                        usize::MAX
                    } else {
                        q as usize
                    }
                };
                Some(p.get_color(idx))
            },
            ColorMode::Gradient(g) => Some(g.color_at(t)),
        }
    }
}

impl Default for ColorEngine {
    fn default() -> (r: Self)
        ensures
            r.spec_mode() is NoColor,
    {
        Self::new()
    }
}

} // verus!
