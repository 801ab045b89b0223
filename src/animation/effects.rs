//! Effects: each maps the art and eased progress to what one frame shows.
use vstd::prelude::*;
use vstd::string::*;
use crate::animation::easing::{eased_range, EASED_MAX, EASED_MIN};
use crate::error::PigletError;
use crate::utils::ascii::{
    bounded, faded, lemma_bounded_width, lemma_visible_count_step, lemma_visible_in_step, max_len, rank, scaled, visible_count,
    AsciiArt, MAX_SIDE,
};
use crate::utils::fixed::{
    cos_turns, cosine, div_floor, isqrt, lemma_div_bounds, sin_turns, sine, sqrt_floor, HALF, ONE,
};
use crate::utils::text::{
    copy_chars, is_space, is_white, join_lines, join_rows, rows, str_eq, string_of,
};

verus! {

/// What a frame shows, as plain values.
pub struct EffectView {
    pub text: Seq<char>,
    pub opacity: int,
    pub offset_x: int,
    pub offset_y: int,
    pub scale: int,
}

/// One frame's render descriptor: the text, its opacity and scale (fixed point),
/// and its offset from the centre in character cells.
#[derive(Debug)]
pub struct EffectResult {
    pub text: String,
    pub opacity: i64,
    pub offset_x: i32,
    pub offset_y: i32,
    pub scale: i64,
}

impl View for EffectResult {
    type V = EffectView;

    open spec fn view(&self) -> EffectView {
        EffectView {
            text: self.text@,
            opacity: self.opacity as int,
            offset_x: self.offset_x as int,
            offset_y: self.offset_y as int,
            scale: self.scale as int,
        }
    }
}

/// A frame with the given text and everything else at its default: full opacity,
/// no offset, scale 1.
pub open spec fn plain(text: Seq<char>) -> EffectView {
    EffectView { text, opacity: ONE as int, offset_x: 0, offset_y: 0, scale: ONE as int }
}

/// The frame with another opacity.
pub open spec fn opaque(v: EffectView, opacity: int) -> EffectView {
    EffectView { opacity, ..v }
}

/// The frame with another offset.
pub open spec fn moved(v: EffectView, x: int, y: int) -> EffectView {
    EffectView { offset_x: x, offset_y: y, ..v }
}

/// The frame with another scale.
pub open spec fn sized(v: EffectView, scale: int) -> EffectView {
    EffectView { scale, ..v }
}

impl EffectResult {
    /// A frame of `text` with full opacity, no offset and scale 1.
    pub fn new(text: String) -> (r: Self)
        ensures
            r@ == plain(text@),
    {
        EffectResult { text, opacity: ONE, offset_x: 0, offset_y: 0, scale: ONE }
    }

    /// The same frame at another opacity.
    pub fn with_opacity(self, opacity: i64) -> (r: Self)
        ensures
            r@ == opaque(self@, opacity as int),
    {
        EffectResult { opacity, ..self }
    }

    /// The same frame at another offset.
    pub fn with_offset(self, x: i32, y: i32) -> (r: Self)
        ensures
            r@ == moved(self@, x as int, y as int),
    {
        EffectResult { offset_x: x, offset_y: y, ..self }
    }

    /// The same frame at another scale.
    pub fn with_scale(self, scale: i64) -> (r: Self)
        ensures
            r@ == sized(self@, scale as int),
    {
        EffectResult { scale, ..self }
    }
}

/// Division rounding toward zero, as a cast from a real number to an integer does.
pub open spec fn trunc_div(a: int, b: int) -> int {
    if a >= 0 {
        a / b
    } else {
        -((-a) / b)
    }
}

/// Rounding toward zero into a `usize`: negative values become 0.
pub open spec fn count_of(a: int, b: int) -> int {
    if a <= 0 {
        0
    } else {
        a / b
    }
}

fn div_trunc(a: i64, b: i64, Ghost(m): Ghost<int>) -> (r: i64)
    requires
        b > 0,
        m >= 0,
        m * b <= 0x7fff_ffff_ffff_ffff,
        -(m * b) <= a <= m * b,
    ensures
        r == trunc_div(a as int, b as int),
        -m <= r <= m,
{
    if a >= 0 {
        proof {
            lemma_div_bounds(a as int, b as int, 0, m);
        }
        a / b
    } else {
        proof {
            lemma_div_bounds(-a, b as int, 0, m);
        }
        -((-a) / b)
    }
}

/// `|a| <= ma` and `|b| <= mb` give `|a * b| <= ma * mb`.
proof fn lemma_mul_abs(a: int, b: int, ma: int, mb: int)
    requires
        -ma <= a <= ma,
        -mb <= b <= mb,
    ensures
        -(ma * mb) <= a * b <= ma * mb,
{
    assert(-(ma * mb) <= a * b <= ma * mb) by (nonlinear_arith)
        requires
            -ma <= a <= ma,
            -mb <= b <= mb,
    ;
}

/// Largest offset an effect produces, in cells.
pub const MAX_OFFSET: i64 = 1_000_000_000;

/// `a / ONE` rounded toward zero, as an offset.
fn off(a: i64) -> (r: i32)
    requires
        -MAX_OFFSET * ONE <= a <= MAX_OFFSET * ONE,
    ensures
        r == trunc_div(a as int, ONE as int),
{
    let v = div_trunc(a, ONE, Ghost(MAX_OFFSET as int));
    v as i32
}

/// The art scaled by a factor of at most 16.
fn scale_art(art: &AsciiArt, factor: i64) -> (r: AsciiArt)
    requires
        bounded(art@),
        factor <= 16 * ONE,
    ensures
        r@ == scaled(art@, factor as int),
{
    proof {
        lemma_bounded_width(art@);
        if factor > ONE {
            lemma_div_bounds(factor as int, ONE as int, 0, 16);
            lemma_mul_abs(factor / ONE, max_len(art@) as int, 16, MAX_SIDE as int);
            lemma_mul_abs(factor / ONE, art@.len() as int, 16, MAX_SIDE as int);
        }
    }
    art.scale(factor)
}

/// Width and height of bounded art, as `i64`.
fn dims(art: &AsciiArt) -> (r: (i64, i64))
    requires
        bounded(art@),
    ensures
        r.0 == max_len(art@),
        r.1 == art@.len(),
        0 <= r.0 <= MAX_SIDE,
        0 <= r.1 <= MAX_SIDE,
{
    proof {
        lemma_bounded_width(art@);
    }
    (art.width() as i64, art.height() as i64)
}

/// Glyphs fade in through the ramp as progress rises; opacity follows progress.
pub open spec fn fade_in(ls: Seq<Seq<char>>, p: int) -> EffectView {
    opaque(plain(faded(ls, p)), p)
}

/// The `fade-in` effect.
pub struct FadeIn;

impl FadeIn {
    /// The frame at eased progress `p`.
    pub fn apply(&self, art: &AsciiArt, p: i64) -> (r: EffectResult)
        requires
            bounded(art@),
            eased_range(p as int),
        ensures
            r@ == fade_in(art@, p as int),
    {
        let text = art.apply_fade(p);
        EffectResult::new(text).with_opacity(p)
    }

    /// The effect's name.
    pub fn name(&self) -> (r: &'static str)
        ensures
            r@ == "fade-in"@,
    {
        "fade-in"
    }
}

/// The reverse of `fade-in`: opacity is `ONE - p`.
pub open spec fn fade_out(ls: Seq<Seq<char>>, p: int) -> EffectView {
    opaque(plain(faded(ls, ONE - p)), ONE - p)
}

/// The `fade-out` effect.
pub struct FadeOut;

impl FadeOut {
    /// The frame at eased progress `p`.
    pub fn apply(&self, art: &AsciiArt, p: i64) -> (r: EffectResult)
        requires
            bounded(art@),
            eased_range(p as int),
        ensures
            r@ == fade_out(art@, p as int),
    {
        let o = ONE - p;
        let text = art.apply_fade(o);
        EffectResult::new(text).with_opacity(o)
    }

    /// The effect's name.
    pub fn name(&self) -> (r: &'static str)
        ensures
            r@ == "fade-out"@,
    {
        "fade-out"
    }
}

/// Fades in over the first half and out over the second.
pub open spec fn fade_in_out(ls: Seq<Seq<char>>, p: int) -> EffectView {
    let o = if p < HALF {
        2 * p
    } else {
        2 * (ONE - p)
    };
    opaque(plain(faded(ls, o)), o)
}

/// The `fade-in-out` effect.
pub struct FadeInOut;

impl FadeInOut {
    /// The frame at eased progress `p`.
    pub fn apply(&self, art: &AsciiArt, p: i64) -> (r: EffectResult)
        requires
            bounded(art@),
            eased_range(p as int),
        ensures
            r@ == fade_in_out(art@, p as int),
    {
        let o = if p < HALF {
            2 * p
        } else {
            2 * (ONE - p)
        };
        let text = art.apply_fade(o);
        EffectResult::new(text).with_opacity(o)
    }

    /// The effect's name.
    pub fn name(&self) -> (r: &'static str)
        ensures
            r@ == "fade-in-out"@,
    {
        "fade-in-out"
    }
}

/// Slides in from the top: the offset shrinks from one height to none.
pub open spec fn slide_in_top(ls: Seq<Seq<char>>, p: int) -> EffectView {
    moved(plain(join_lines(ls)), 0, trunc_div((ONE - p) * -(ls.len() as int), ONE as int))
}

/// The `slide-in-top` effect.
pub struct SlideInTop;

impl SlideInTop {
    /// The frame at eased progress `p`.
    pub fn apply(&self, art: &AsciiArt, p: i64) -> (r: EffectResult)
        requires
            bounded(art@),
            eased_range(p as int),
        ensures
            r@ == slide_in_top(art@, p as int),
    {
        let (w, h) = dims(art);
        proof {
            lemma_mul_abs((ONE - p) as int, -h as int, 3 * ONE as int, MAX_SIDE as int);
        }
        EffectResult::new(art.render()).with_offset(0, off((ONE - p) * -h))
    }

    /// The effect's name.
    pub fn name(&self) -> (r: &'static str)
        ensures
            r@ == "slide-in-top"@,
    {
        "slide-in-top"
    }
}

/// Slides in from the bottom: the offset shrinks from one height to none.
pub open spec fn slide_in_bottom(ls: Seq<Seq<char>>, p: int) -> EffectView {
    moved(plain(join_lines(ls)), 0, trunc_div((ONE - p) * (ls.len() as int), ONE as int))
}

/// The `slide-in-bottom` effect.
pub struct SlideInBottom;

impl SlideInBottom {
    /// The frame at eased progress `p`.
    pub fn apply(&self, art: &AsciiArt, p: i64) -> (r: EffectResult)
        requires
            bounded(art@),
            eased_range(p as int),
        ensures
            r@ == slide_in_bottom(art@, p as int),
    {
        let (w, h) = dims(art);
        proof {
            lemma_mul_abs((ONE - p) as int, h as int, 3 * ONE as int, MAX_SIDE as int);
        }
        EffectResult::new(art.render()).with_offset(0, off((ONE - p) * h))
    }

    /// The effect's name.
    pub fn name(&self) -> (r: &'static str)
        ensures
            r@ == "slide-in-bottom"@,
    {
        "slide-in-bottom"
    }
}

/// Slides in from the left: the offset shrinks from one width to none.
pub open spec fn slide_in_left(ls: Seq<Seq<char>>, p: int) -> EffectView {
    moved(plain(join_lines(ls)), trunc_div((ONE - p) * -(max_len(ls) as int), ONE as int), 0)
}

/// The `slide-in-left` effect.
pub struct SlideInLeft;

impl SlideInLeft {
    /// The frame at eased progress `p`.
    pub fn apply(&self, art: &AsciiArt, p: i64) -> (r: EffectResult)
        requires
            bounded(art@),
            eased_range(p as int),
        ensures
            r@ == slide_in_left(art@, p as int),
    {
        let (w, h) = dims(art);
        proof {
            lemma_mul_abs((ONE - p) as int, -w as int, 3 * ONE as int, MAX_SIDE as int);
        }
        EffectResult::new(art.render()).with_offset(off((ONE - p) * -w), 0)
    }

    /// The effect's name.
    pub fn name(&self) -> (r: &'static str)
        ensures
            r@ == "slide-in-left"@,
    {
        "slide-in-left"
    }
}

/// Slides in from the right: the offset shrinks from one width to none.
pub open spec fn slide_in_right(ls: Seq<Seq<char>>, p: int) -> EffectView {
    moved(plain(join_lines(ls)), trunc_div((ONE - p) * (max_len(ls) as int), ONE as int), 0)
}

/// The `slide-in-right` effect.
pub struct SlideInRight;

impl SlideInRight {
    /// The frame at eased progress `p`.
    pub fn apply(&self, art: &AsciiArt, p: i64) -> (r: EffectResult)
        requires
            bounded(art@),
            eased_range(p as int),
        ensures
            r@ == slide_in_right(art@, p as int),
    {
        let (w, h) = dims(art);
        proof {
            lemma_mul_abs((ONE - p) as int, w as int, 3 * ONE as int, MAX_SIDE as int);
        }
        EffectResult::new(art.render()).with_offset(off((ONE - p) * w), 0)
    }

    /// The effect's name.
    pub fn name(&self) -> (r: &'static str)
        ensures
            r@ == "slide-in-right"@,
    {
        "slide-in-right"
    }
}

/// Slides out upward by up to its height plus ten cells.
pub open spec fn slide_out_top(ls: Seq<Seq<char>>, p: int) -> EffectView {
    moved(plain(join_lines(ls)), 0, -trunc_div(p * (ls.len() + 10), ONE as int))
}

/// The `slide-out-top` effect.
pub struct SlideOutTop;

impl SlideOutTop {
    /// The frame at eased progress `p`.
    pub fn apply(&self, art: &AsciiArt, p: i64) -> (r: EffectResult)
        requires
            bounded(art@),
            eased_range(p as int),
        ensures
            r@ == slide_out_top(art@, p as int),
    {
        let (w, h) = dims(art);
        proof {
            lemma_mul_abs(p as int, h + 10, 3 * ONE as int, MAX_SIDE + 10);
        }
        EffectResult::new(art.render()).with_offset(0, -off(p * (h + 10)))
    }

    /// The effect's name.
    pub fn name(&self) -> (r: &'static str)
        ensures
            r@ == "slide-out-top"@,
    {
        "slide-out-top"
    }
}

/// Slides out downward by up to its height plus ten cells.
pub open spec fn slide_out_bottom(ls: Seq<Seq<char>>, p: int) -> EffectView {
    moved(plain(join_lines(ls)), 0, trunc_div(p * (ls.len() + 10), ONE as int))
}

/// The `slide-out-bottom` effect.
pub struct SlideOutBottom;

impl SlideOutBottom {
    /// The frame at eased progress `p`.
    pub fn apply(&self, art: &AsciiArt, p: i64) -> (r: EffectResult)
        requires
            bounded(art@),
            eased_range(p as int),
        ensures
            r@ == slide_out_bottom(art@, p as int),
    {
        let (w, h) = dims(art);
        proof {
            lemma_mul_abs(p as int, h + 10, 3 * ONE as int, MAX_SIDE + 10);
        }
        EffectResult::new(art.render()).with_offset(0, off(p * (h + 10)))
    }

    /// The effect's name.
    pub fn name(&self) -> (r: &'static str)
        ensures
            r@ == "slide-out-bottom"@,
    {
        "slide-out-bottom"
    }
}

/// Slides out to the left by up to its width plus ten cells.
pub open spec fn slide_out_left(ls: Seq<Seq<char>>, p: int) -> EffectView {
    moved(plain(join_lines(ls)), -trunc_div(p * (max_len(ls) + 10), ONE as int), 0)
}

/// The `slide-out-left` effect.
pub struct SlideOutLeft;

impl SlideOutLeft {
    /// The frame at eased progress `p`.
    pub fn apply(&self, art: &AsciiArt, p: i64) -> (r: EffectResult)
        requires
            bounded(art@),
            eased_range(p as int),
        ensures
            r@ == slide_out_left(art@, p as int),
    {
        let (w, h) = dims(art);
        proof {
            lemma_mul_abs(p as int, w + 10, 3 * ONE as int, MAX_SIDE + 10);
        }
        EffectResult::new(art.render()).with_offset(-off(p * (w + 10)), 0)
    }

    /// The effect's name.
    pub fn name(&self) -> (r: &'static str)
        ensures
            r@ == "slide-out-left"@,
    {
        "slide-out-left"
    }
}

/// Slides out to the right by up to its width plus ten cells.
pub open spec fn slide_out_right(ls: Seq<Seq<char>>, p: int) -> EffectView {
    moved(plain(join_lines(ls)), trunc_div(p * (max_len(ls) + 10), ONE as int), 0)
}

/// The `slide-out-right` effect.
pub struct SlideOutRight;

impl SlideOutRight {
    /// The frame at eased progress `p`.
    pub fn apply(&self, art: &AsciiArt, p: i64) -> (r: EffectResult)
        requires
            bounded(art@),
            eased_range(p as int),
        ensures
            r@ == slide_out_right(art@, p as int),
    {
        let (w, h) = dims(art);
        proof {
            lemma_mul_abs(p as int, w + 10, 3 * ONE as int, MAX_SIDE + 10);
        }
        EffectResult::new(art.render()).with_offset(off(p * (w + 10)), 0)
    }

    /// The effect's name.
    pub fn name(&self) -> (r: &'static str)
        ensures
            r@ == "slide-out-right"@,
    {
        "slide-out-right"
    }
}

/// Grows with progress: the scale is the progress itself.
pub open spec fn scale_up(ls: Seq<Seq<char>>, p: int) -> EffectView {
    sized(plain(join_lines(scaled(ls, p))), p)
}

/// The `scale-up` effect.
pub struct ScaleUp;

impl ScaleUp {
    /// The frame at eased progress `p`.
    pub fn apply(&self, art: &AsciiArt, p: i64) -> (r: EffectResult)
        requires
            bounded(art@),
            eased_range(p as int),
        ensures
            r@ == scale_up(art@, p as int),
    {
        let scaled = scale_art(art, p);
        EffectResult::new(scaled.render()).with_scale(p)
    }

    /// The effect's name.
    pub fn name(&self) -> (r: &'static str)
        ensures
            r@ == "scale-up"@,
    {
        "scale-up"
    }
}

/// Shrinks from twice the size: the scale is `2 - p`.
pub open spec fn scale_down(ls: Seq<Seq<char>>, p: int) -> EffectView {
    sized(plain(join_lines(scaled(ls, 2 * ONE - p))), 2 * ONE - p)
}

/// The `scale-down` effect.
pub struct ScaleDown;

impl ScaleDown {
    /// The frame at eased progress `p`.
    pub fn apply(&self, art: &AsciiArt, p: i64) -> (r: EffectResult)
        requires
            bounded(art@),
            eased_range(p as int),
        ensures
            r@ == scale_down(art@, p as int),
    {
        let s = 2 * ONE - p;
        let scaled = scale_art(art, s);
        EffectResult::new(scaled.render()).with_scale(s)
    }

    /// The effect's name.
    pub fn name(&self) -> (r: &'static str)
        ensures
            r@ == "scale-down"@,
    {
        "scale-down"
    }
}

/// The art unchanged; the colour engine animates it.
pub open spec fn color_cycle(ls: Seq<Seq<char>>, p: int) -> EffectView {
    plain(join_lines(ls))
}

/// The `color-cycle` effect.
pub struct ColorCycle;

impl ColorCycle {
    /// The frame at eased progress `p`.
    pub fn apply(&self, art: &AsciiArt, p: i64) -> (r: EffectResult)
        requires
            bounded(art@),
            eased_range(p as int),
        ensures
            r@ == color_cycle(art@, p as int),
    {
        EffectResult::new(art.render())
    }

    /// The effect's name.
    pub fn name(&self) -> (r: &'static str)
        ensures
            r@ == "color-cycle"@,
    {
        "color-cycle"
    }
}

/// The art unchanged; the colour engine animates it.
pub open spec fn rainbow(ls: Seq<Seq<char>>, p: int) -> EffectView {
    plain(join_lines(ls))
}

/// The `rainbow` effect.
pub struct Rainbow;

impl Rainbow {
    /// The frame at eased progress `p`.
    pub fn apply(&self, art: &AsciiArt, p: i64) -> (r: EffectResult)
        requires
            bounded(art@),
            eased_range(p as int),
        ensures
            r@ == rainbow(art@, p as int),
    {
        EffectResult::new(art.render())
    }

    /// The effect's name.
    pub fn name(&self) -> (r: &'static str)
        ensures
            r@ == "rainbow"@,
    {
        "rainbow"
    }
}

/// The art unchanged; the colour engine animates it.
pub open spec fn gradient_flow(ls: Seq<Seq<char>>, p: int) -> EffectView {
    plain(join_lines(ls))
}

/// The `gradient-flow` effect.
pub struct GradientFlow;

impl GradientFlow {
    /// The frame at eased progress `p`.
    pub fn apply(&self, art: &AsciiArt, p: i64) -> (r: EffectResult)
        requires
            bounded(art@),
            eased_range(p as int),
        ensures
            r@ == gradient_flow(art@, p as int),
    {
        EffectResult::new(art.render())
    }

    /// The effect's name.
    pub fn name(&self) -> (r: &'static str)
        ensures
            r@ == "gradient-flow"@,
    {
        "gradient-flow"
    }
}

/// Drops twenty cells into place while its opacity rises from 0.3.
pub open spec fn shadow_drop(ls: Seq<Seq<char>>, p: int) -> EffectView {
    opaque(moved(plain(join_lines(ls)), 0, -trunc_div((ONE - p) * 20, ONE as int)), 3000 + (7 * p) / 10)
}

/// The `shadow-drop` effect.
pub struct ShadowDrop;

impl ShadowDrop {
    /// The frame at eased progress `p`.
    pub fn apply(&self, art: &AsciiArt, p: i64) -> (r: EffectResult)
        requires
            bounded(art@),
            eased_range(p as int),
        ensures
            r@ == shadow_drop(art@, p as int),
    {
        let y = off((ONE - p) * 20);
        let o = 3000 + div_floor(7 * p, 10);
        EffectResult::new(art.render()).with_offset(0, -y).with_opacity(o)
    }

    /// The effect's name.
    pub fn name(&self) -> (r: &'static str)
        ensures
            r@ == "shadow-drop"@,
    {
        "shadow-drop"
    }
}

/// Breathes once per playback: the scale is `1 + sin(p turns) / 10`.
pub open spec fn pulse(ls: Seq<Seq<char>>, p: int) -> EffectView {
    let s = ONE + sine(p) / 10;
    sized(plain(join_lines(scaled(ls, s))), s)
}

/// The `pulse` effect.
pub struct Pulse;

impl Pulse {
    /// The frame at eased progress `p`.
    pub fn apply(&self, art: &AsciiArt, p: i64) -> (r: EffectResult)
        requires
            bounded(art@),
            eased_range(p as int),
        ensures
            r@ == pulse(art@, p as int),
    {
        let s = ONE + div_floor(sin_turns(p), 10);
        let scaled = scale_art(art, s);
        EffectResult::new(scaled.render()).with_scale(s)
    }

    /// The effect's name.
    pub fn name(&self) -> (r: &'static str)
        ensures
            r@ == "pulse"@,
    {
        "pulse"
    }
}

/// Falls from one height above over 80% of the playback, then hops once.
pub open spec fn bounce_in(ls: Seq<Seq<char>>, p: int) -> EffectView {
    let y = if p < 8000 {
        trunc_div(-((ls.len() as int) * (8000 - p)), 8000)
    } else {
        let b = (p - 8000) * 5;
        trunc_div(10 * b * (ONE - b), ONE * ONE)
    };
    moved(plain(join_lines(ls)), 0, y)
}

/// The `bounce-in` effect.
pub struct BounceIn;

impl BounceIn {
    /// The frame at eased progress `p`.
    pub fn apply(&self, art: &AsciiArt, p: i64) -> (r: EffectResult)
        requires
            bounded(art@),
            eased_range(p as int),
        ensures
            r@ == bounce_in(art@, p as int),
    {
        let (w, h) = dims(art);
        let y = if p < 8000 {
            proof {
                lemma_mul_abs(h as int, (8000 - p) as int, MAX_SIDE as int, 28000);
            }
            div_trunc(-(h * (8000 - p)), 8000, Ghost(MAX_OFFSET as int))
        } else {
            let b = (p - 8000) * 5;
            proof {
                lemma_mul_abs(10 * b, ONE - b, 1_100_000, 100_000);
            }
            div_trunc(10 * b * (ONE - b), ONE * ONE, Ghost(MAX_OFFSET as int))
        };
        EffectResult::new(art.render()).with_offset(0, y as i32)
    }

    /// The effect's name.
    pub fn name(&self) -> (r: &'static str)
        ensures
            r@ == "bounce-in"@,
    {
        "bounce-in"
    }
}

/// Hops up over the first 20% of the playback, then falls one height.
pub open spec fn bounce_out_effect(ls: Seq<Seq<char>>, p: int) -> EffectView {
    let y = if p < 2000 {
        -trunc_div(10 * p * (ONE - 5 * p), ONE * ONE)
    } else {
        trunc_div((p - 2000) * (ls.len() as int), 8000)
    };
    moved(plain(join_lines(ls)), 0, y)
}

/// The `bounce-out` effect.
pub struct BounceOut;

impl BounceOut {
    /// The frame at eased progress `p`.
    pub fn apply(&self, art: &AsciiArt, p: i64) -> (r: EffectResult)
        requires
            bounded(art@),
            eased_range(p as int),
        ensures
            r@ == bounce_out_effect(art@, p as int),
    {
        let (w, h) = dims(art);
        let y = if p < 2000 {
            proof {
                lemma_mul_abs(10 * p, ONE - 5 * p, 200_000, 110_000);
            }
            -div_trunc(10 * p * (ONE - 5 * p), ONE * ONE, Ghost(MAX_OFFSET as int))
        } else {
            proof {
                lemma_mul_abs((p - 2000) as int, h as int, 28000, MAX_SIDE as int);
            }
            div_trunc((p - 2000) * h, 8000, Ghost(MAX_OFFSET as int))
        };
        EffectResult::new(art.render()).with_offset(0, y as i32)
    }

    /// The effect's name.
    pub fn name(&self) -> (r: &'static str)
        ensures
            r@ == "bounce-out"@,
    {
        "bounce-out"
    }
}

/// Wobbles in size twice per playback, settling as progress nears 1.
pub open spec fn jello(ls: Seq<Seq<char>>, p: int) -> EffectView {
    let wob = sine(2 * p) * (ONE - p) / ONE as int;
    let s = ONE + wob / 10;
    let a = if s < 0 {
        -s
    } else {
        s
    };
    sized(plain(join_lines(scaled(ls, a))), a)
}

/// The `jello` effect.
pub struct Jello;

impl Jello {
    /// The frame at eased progress `p`.
    pub fn apply(&self, art: &AsciiArt, p: i64) -> (r: EffectResult)
        requires
            bounded(art@),
            eased_range(p as int),
        ensures
            r@ == jello(art@, p as int),
    {
        let sn = sin_turns(2 * p);
        proof {
            lemma_mul_abs(sn as int, (ONE - p) as int, ONE as int, 3 * ONE as int);
            lemma_div_bounds(sn * (ONE - p), ONE as int, -3 * ONE, 3 * ONE);
        }
        let wob = div_floor(sn * (ONE - p), ONE);
        let s = ONE + div_floor(wob, 10);
        let a = if s < 0 {
            -s
        } else {
            s
        };
        let scaled = scale_art(art, a);
        EffectResult::new(scaled.render()).with_scale(a)
    }

    /// The effect's name.
    pub fn name(&self) -> (r: &'static str)
        ensures
            r@ == "jello"@,
    {
        "jello"
    }
}

/// Grows with progress while swinging in from the side.
pub open spec fn rotate_in(ls: Seq<Seq<char>>, p: int) -> EffectView {
    let x = trunc_div(cosine((ONE - p) / 2) * 10 * (ONE - p), ONE * ONE);
    moved(sized(plain(join_lines(scaled(ls, p))), p), x, 0)
}

/// The `rotate-in` effect.
pub struct RotateIn;

impl RotateIn {
    /// The frame at eased progress `p`.
    pub fn apply(&self, art: &AsciiArt, p: i64) -> (r: EffectResult)
        requires
            bounded(art@),
            eased_range(p as int),
        ensures
            r@ == rotate_in(art@, p as int),
    {
        let c = cos_turns(div_floor(ONE - p, 2));
        proof {
            lemma_mul_abs(c * 10, (ONE - p) as int, 10 * ONE, 3 * ONE as int);
        }
        let x = div_trunc(c * 10 * (ONE - p), ONE * ONE, Ghost(MAX_OFFSET as int));
        let scaled = scale_art(art, p);
        EffectResult::new(scaled.render()).with_scale(p).with_offset(x as i32, 0)
    }

    /// The effect's name.
    pub fn name(&self) -> (r: &'static str)
        ensures
            r@ == "rotate-in"@,
    {
        "rotate-in"
    }
}

/// Shrinks with progress while swinging out to the side.
pub open spec fn rotate_out(ls: Seq<Seq<char>>, p: int) -> EffectView {
    let x = trunc_div(cosine(p / 2) * 10 * p, ONE * ONE);
    moved(sized(plain(join_lines(scaled(ls, ONE - p))), ONE - p), x, 0)
}

/// The `rotate-out` effect.
pub struct RotateOut;

impl RotateOut {
    /// The frame at eased progress `p`.
    pub fn apply(&self, art: &AsciiArt, p: i64) -> (r: EffectResult)
        requires
            bounded(art@),
            eased_range(p as int),
        ensures
            r@ == rotate_out(art@, p as int),
    {
        let c = cos_turns(div_floor(p, 2));
        proof {
            lemma_mul_abs(c * 10, p as int, 10 * ONE, 3 * ONE as int);
        }
        let x = div_trunc(c * 10 * p, ONE * ONE, Ghost(MAX_OFFSET as int));
        let s = ONE - p;
        let scaled = scale_art(art, s);
        EffectResult::new(scaled.render()).with_scale(s).with_offset(x as i32, 0)
    }

    /// The effect's name.
    pub fn name(&self) -> (r: &'static str)
        ensures
            r@ == "rotate-out"@,
    {
        "rotate-out"
    }
}

/// Shakes sideways twenty times, the amplitude falling from ten cells.
pub open spec fn shake(ls: Seq<Seq<char>>, p: int) -> EffectView {
    moved(plain(join_lines(ls)), trunc_div(sine(20 * p) * 10 * (ONE - p), ONE * ONE), 0)
}

/// The `shake` effect.
pub struct Shake;

impl Shake {
    /// The frame at eased progress `p`.
    pub fn apply(&self, art: &AsciiArt, p: i64) -> (r: EffectResult)
        requires
            bounded(art@),
            eased_range(p as int),
        ensures
            r@ == shake(art@, p as int),
    {
        let sn = sin_turns(20 * p);
        proof {
            lemma_mul_abs(sn * 10, (ONE - p) as int, 10 * ONE, 3 * ONE as int);
        }
        let x = div_trunc(sn * 10 * (ONE - p), ONE * ONE, Ghost(MAX_OFFSET as int));
        EffectResult::new(art.render()).with_offset(x as i32, 0)
    }

    /// The effect's name.
    pub fn name(&self) -> (r: &'static str)
        ensures
            r@ == "shake"@,
    {
        "shake"
    }
}

/// Circles twice, the radius falling from fifteen cells.
pub open spec fn wobble(ls: Seq<Seq<char>>, p: int) -> EffectView {
    let x = trunc_div(sine(2 * p) * 15 * (ONE - p), ONE * ONE);
    let y = trunc_div(cosine(2 * p) * 45 * (ONE - p), 10 * ONE * ONE);
    moved(plain(join_lines(ls)), x, y)
}

/// The `wobble` effect.
pub struct Wobble;

impl Wobble {
    /// The frame at eased progress `p`.
    pub fn apply(&self, art: &AsciiArt, p: i64) -> (r: EffectResult)
        requires
            bounded(art@),
            eased_range(p as int),
        ensures
            r@ == wobble(art@, p as int),
    {
        let sn = sin_turns(2 * p);
        let c = cos_turns(2 * p);
        proof {
            lemma_mul_abs(sn * 15, (ONE - p) as int, 15 * ONE, 3 * ONE as int);
            lemma_mul_abs(c * 45, (ONE - p) as int, 45 * ONE, 3 * ONE as int);
        }
        let x = div_trunc(sn * 15 * (ONE - p), ONE * ONE, Ghost(MAX_OFFSET as int));
        let y = div_trunc(c * 45 * (ONE - p), 10 * ONE * ONE, Ghost(MAX_OFFSET as int));
        EffectResult::new(art.render()).with_offset(x as i32, y as i32)
    }

    /// The effect's name.
    pub fn name(&self) -> (r: &'static str)
        ensures
            r@ == "wobble"@,
    {
        "wobble"
    }
}

/// Jitters by up to three cells on both axes at different rates.
pub open spec fn vibrate(ls: Seq<Seq<char>>, p: int) -> EffectView {
    moved(plain(join_lines(ls)), trunc_div(3 * sine(25 * p), ONE as int), trunc_div(3 * cosine(65 * p / 2), ONE as int))
}

/// The `vibrate` effect.
pub struct Vibrate;

impl Vibrate {
    /// The frame at eased progress `p`.
    pub fn apply(&self, art: &AsciiArt, p: i64) -> (r: EffectResult)
        requires
            bounded(art@),
            eased_range(p as int),
        ensures
            r@ == vibrate(art@, p as int),
    {
        let sn = sin_turns(25 * p);
        let c = cos_turns(div_floor(65 * p, 2));
        let x = div_trunc(3 * sn, ONE, Ghost(MAX_OFFSET as int));
        let y = div_trunc(3 * c, ONE, Ghost(MAX_OFFSET as int));
        EffectResult::new(art.render()).with_offset(x as i32, y as i32)
    }

    /// The effect's name.
    pub fn name(&self) -> (r: &'static str)
        ensures
            r@ == "vibrate"@,
    {
        "vibrate"
    }
}

/// Two beats per playback, each a strong pulse to 1.15 and a weak one to 1.1.
pub open spec fn heartbeat(ls: Seq<Seq<char>>, p: int) -> EffectView {
    let b = 2 * p - ONE * trunc_div(2 * p, ONE as int);
    let s = if b < 3000 {
        ONE + b / 2
    } else if b < 4000 {
        11500 - (b - 3000) * 3 / 2
    } else if b < 6000 {
        ONE + (b - 4000) / 2
    } else if b < 7000 {
        11000 - (b - 6000)
    } else {
        ONE as int
    };
    sized(plain(join_lines(scaled(ls, s))), s)
}

/// The `heartbeat` effect.
pub struct Heartbeat;

impl Heartbeat {
    /// The frame at eased progress `p`.
    pub fn apply(&self, art: &AsciiArt, p: i64) -> (r: EffectResult)
        requires
            bounded(art@),
            eased_range(p as int),
        ensures
            r@ == heartbeat(art@, p as int),
    {
        let q = div_trunc(2 * p, ONE, Ghost(6));
        let b = 2 * p - ONE * q;
        proof {
            lemma_div_bounds(if 2 * p >= 0 { 2 * p as int } else { -2 * p as int }, ONE as int, 0, 6);
            vstd::arithmetic::div_mod::lemma_fundamental_div_mod(if 2 * p >= 0 { 2 * p as int } else { -2 * p as int }, ONE as int);
            vstd::arithmetic::div_mod::lemma_mod_bound(if 2 * p >= 0 { 2 * p as int } else { -2 * p as int }, ONE as int);
        }
        let s = if b < 3000 {
            ONE + div_floor(b, 2)
        } else if b < 4000 {
            11500 - (b - 3000) * 3 / 2
        } else if b < 6000 {
            ONE + (b - 4000) / 2
        } else if b < 7000 {
            11000 - (b - 6000)
        } else {
            ONE
        };
        let scaled = scale_art(art, s);
        EffectResult::new(scaled.render()).with_scale(s)
    }

    /// The effect's name.
    pub fn name(&self) -> (r: &'static str)
        ensures
            r@ == "heartbeat"@,
    {
        "heartbeat"
    }
}

/// Swings like a pendulum twice, lifting at each end, the swing dying away.
pub open spec fn swing(ls: Seq<Seq<char>>, p: int) -> EffectView {
    let a = sine(2 * p) * (ONE - p) / ONE as int;
    let m = if a < 0 {
        -a
    } else {
        a
    };
    moved(plain(join_lines(ls)), trunc_div(a * 20, ONE as int), -trunc_div(m * 5, ONE as int))
}

/// The `swing` effect.
pub struct Swing;

impl Swing {
    /// The frame at eased progress `p`.
    pub fn apply(&self, art: &AsciiArt, p: i64) -> (r: EffectResult)
        requires
            bounded(art@),
            eased_range(p as int),
        ensures
            r@ == swing(art@, p as int),
    {
        let sn = sin_turns(2 * p);
        proof {
            lemma_mul_abs(sn as int, (ONE - p) as int, ONE as int, 3 * ONE as int);
            lemma_div_bounds(sn * (ONE - p), ONE as int, -3 * ONE, 3 * ONE);
        }
        let a = div_floor(sn * (ONE - p), ONE);
        let m = if a < 0 {
            -a
        } else {
            a
        };
        let x = div_trunc(a * 20, ONE, Ghost(MAX_OFFSET as int));
        let y = div_trunc(m * 5, ONE, Ghost(MAX_OFFSET as int));
        EffectResult::new(art.render()).with_offset(x as i32, -y as i32)
    }

    /// The effect's name.
    pub fn name(&self) -> (r: &'static str)
        ensures
            r@ == "swing"@,
    {
        "swing"
    }
}

/// Sways gently once: eight cells aside, two down at the extremes.
pub open spec fn sway(ls: Seq<Seq<char>>, p: int) -> EffectView {
    let sn = sine(p);
    let m = if sn < 0 {
        -sn
    } else {
        sn
    };
    moved(plain(join_lines(ls)), trunc_div(8 * sn, ONE as int), trunc_div(2 * m, ONE as int))
}

/// The `sway` effect.
pub struct Sway;

impl Sway {
    /// The frame at eased progress `p`.
    pub fn apply(&self, art: &AsciiArt, p: i64) -> (r: EffectResult)
        requires
            bounded(art@),
            eased_range(p as int),
        ensures
            r@ == sway(art@, p as int),
    {
        let sn = sin_turns(p);
        let m = if sn < 0 {
            -sn
        } else {
            sn
        };
        let x = div_trunc(8 * sn, ONE, Ghost(MAX_OFFSET as int));
        let y = div_trunc(2 * m, ONE, Ghost(MAX_OFFSET as int));
        EffectResult::new(art.render()).with_offset(x as i32, y as i32)
    }

    /// The effect's name.
    pub fn name(&self) -> (r: &'static str)
        ensures
            r@ == "sway"@,
    {
        "sway"
    }
}

/// Rolls in from the left, twenty cells beyond its width.
pub open spec fn roll_in(ls: Seq<Seq<char>>, p: int) -> EffectView {
    let x = trunc_div((ONE - p) * -(max_len(ls) + 20), ONE as int);
    let rot = trunc_div((ONE - p) * 5, ONE as int);
    moved(plain(join_lines(ls)), x, trunc_div(rot * sine(p / 2), ONE as int))
}

/// The `roll-in` effect.
pub struct RollIn;

impl RollIn {
    /// The frame at eased progress `p`.
    pub fn apply(&self, art: &AsciiArt, p: i64) -> (r: EffectResult)
        requires
            bounded(art@),
            eased_range(p as int),
        ensures
            r@ == roll_in(art@, p as int),
    {
        let (w, h) = dims(art);
        proof {
            lemma_mul_abs((ONE - p) as int, -(w + 20), 3 * ONE as int, MAX_SIDE + 20);
        }
        let x = div_trunc((ONE - p) * -(w + 20), ONE, Ghost(MAX_OFFSET as int));
        let rot = div_trunc((ONE - p) * 5, ONE, Ghost(15));
        let sn = sin_turns(div_floor(p, 2));
        proof {
            lemma_mul_abs(rot as int, sn as int, 15, ONE as int);
        }
        let y = div_trunc(rot * sn, ONE, Ghost(MAX_OFFSET as int));
        EffectResult::new(art.render()).with_offset(x as i32, y as i32)
    }

    /// The effect's name.
    pub fn name(&self) -> (r: &'static str)
        ensures
            r@ == "roll-in"@,
    {
        "roll-in"
    }
}

/// Rolls out to the right, twenty cells beyond its width.
pub open spec fn roll_out(ls: Seq<Seq<char>>, p: int) -> EffectView {
    let x = trunc_div(p * (max_len(ls) + 20), ONE as int);
    let rot = trunc_div(p * 5, ONE as int);
    moved(plain(join_lines(ls)), x, trunc_div(rot * sine(p / 2), ONE as int))
}

/// The `roll-out` effect.
pub struct RollOut;

impl RollOut {
    /// The frame at eased progress `p`.
    pub fn apply(&self, art: &AsciiArt, p: i64) -> (r: EffectResult)
        requires
            bounded(art@),
            eased_range(p as int),
        ensures
            r@ == roll_out(art@, p as int),
    {
        let (w, h) = dims(art);
        proof {
            lemma_mul_abs(p as int, w + 20, 3 * ONE as int, MAX_SIDE + 20);
        }
        let x = div_trunc(p * (w + 20), ONE, Ghost(MAX_OFFSET as int));
        let rot = div_trunc(p * 5, ONE, Ghost(15));
        let sn = sin_turns(div_floor(p, 2));
        proof {
            lemma_mul_abs(rot as int, sn as int, 15, ONE as int);
        }
        let y = div_trunc(rot * sn, ONE, Ghost(MAX_OFFSET as int));
        EffectResult::new(art.render()).with_offset(x as i32, y as i32)
    }

    /// The effect's name.
    pub fn name(&self) -> (r: &'static str)
        ensures
            r@ == "roll-out"@,
    {
        "roll-out"
    }
}

/// Expands from a tenth of its size while fading in.
pub open spec fn puff_in(ls: Seq<Seq<char>>, p: int) -> EffectView {
    let s = 1000 + 9 * p / 10;
    opaque(sized(plain(join_lines(scaled(ls, s))), s), p)
}

/// The `puff-in` effect.
pub struct PuffIn;

impl PuffIn {
    /// The frame at eased progress `p`.
    pub fn apply(&self, art: &AsciiArt, p: i64) -> (r: EffectResult)
        requires
            bounded(art@),
            eased_range(p as int),
        ensures
            r@ == puff_in(art@, p as int),
    {
        let s = 1000 + div_floor(9 * p, 10);
        let scaled = scale_art(art, s);
        EffectResult::new(scaled.render()).with_scale(s).with_opacity(p)
    }

    /// The effect's name.
    pub fn name(&self) -> (r: &'static str)
        ensures
            r@ == "puff-in"@,
    {
        "puff-in"
    }
}

/// Shrinks toward a tenth of its size while fading out.
pub open spec fn puff_out(ls: Seq<Seq<char>>, p: int) -> EffectView {
    let s = ONE - 9 * p / 10;
    let drawn = if s < 1000 {
        1000
    } else {
        s
    };
    opaque(sized(plain(join_lines(scaled(ls, drawn))), s), ONE - p)
}

/// The `puff-out` effect.
pub struct PuffOut;

impl PuffOut {
    /// The frame at eased progress `p`.
    pub fn apply(&self, art: &AsciiArt, p: i64) -> (r: EffectResult)
        requires
            bounded(art@),
            eased_range(p as int),
        ensures
            r@ == puff_out(art@, p as int),
    {
        let s = ONE - div_floor(9 * p, 10);
        let drawn = if s < 1000 {
            1000
        } else {
            s
        };
        let scaled = scale_art(art, drawn);
        EffectResult::new(scaled.render()).with_scale(s).with_opacity(ONE - p)
    }

    /// The effect's name.
    pub fn name(&self) -> (r: &'static str)
        ensures
            r@ == "puff-out"@,
    {
        "puff-out"
    }
}

/// Slides in from the left, ten cells beyond its width, rocking vertically.
pub open spec fn slide_rotate_hor(ls: Seq<Seq<char>>, p: int) -> EffectView {
    let x = trunc_div((ONE - p) * -(max_len(ls) + 10), ONE as int);
    let r = ONE - p;
    moved(plain(join_lines(ls)), x, trunc_div(r * 10 * sine(r / 2), ONE * ONE))
}

/// The `slide-rotate-hor` effect.
pub struct SlideRotateHor;

impl SlideRotateHor {
    /// The frame at eased progress `p`.
    pub fn apply(&self, art: &AsciiArt, p: i64) -> (r: EffectResult)
        requires
            bounded(art@),
            eased_range(p as int),
        ensures
            r@ == slide_rotate_hor(art@, p as int),
    {
        let (w, h) = dims(art);
        proof {
            lemma_mul_abs((ONE - p) as int, -(w + 10), 3 * ONE as int, MAX_SIDE + 10);
        }
        let x = div_trunc((ONE - p) * -(w + 10), ONE, Ghost(MAX_OFFSET as int));
        let r = ONE - p;
        let sn = sin_turns(div_floor(r, 2));
        proof {
            lemma_mul_abs(r * 10, sn as int, 30 * ONE, ONE as int);
        }
        let y = div_trunc(r * 10 * sn, ONE * ONE, Ghost(MAX_OFFSET as int));
        EffectResult::new(art.render()).with_offset(x as i32, y as i32)
    }

    /// The effect's name.
    pub fn name(&self) -> (r: &'static str)
        ensures
            r@ == "slide-rotate-hor"@,
    {
        "slide-rotate-hor"
    }
}

/// Slides in from the top, five cells beyond its height, rocking sideways.
pub open spec fn slide_rotate_ver(ls: Seq<Seq<char>>, p: int) -> EffectView {
    let y = trunc_div((ONE - p) * -(ls.len() + 5), ONE as int);
    let r = ONE - p;
    moved(plain(join_lines(ls)), trunc_div(r * 15 * cosine(r / 2), ONE * ONE), y)
}

/// The `slide-rotate-ver` effect.
pub struct SlideRotateVer;

impl SlideRotateVer {
    /// The frame at eased progress `p`.
    pub fn apply(&self, art: &AsciiArt, p: i64) -> (r: EffectResult)
        requires
            bounded(art@),
            eased_range(p as int),
        ensures
            r@ == slide_rotate_ver(art@, p as int),
    {
        let (w, h) = dims(art);
        proof {
            lemma_mul_abs((ONE - p) as int, -(h + 5), 3 * ONE as int, MAX_SIDE + 5);
        }
        let y = div_trunc((ONE - p) * -(h + 5), ONE, Ghost(MAX_OFFSET as int));
        let r = ONE - p;
        let c = cos_turns(div_floor(r, 2));
        proof {
            lemma_mul_abs(r * 15, c as int, 45 * ONE, ONE as int);
        }
        let x = div_trunc(r * 15 * c, ONE * ONE, Ghost(MAX_OFFSET as int));
        EffectResult::new(art.render()).with_offset(x as i32, y as i32)
    }

    /// The effect's name.
    pub fn name(&self) -> (r: &'static str)
        ensures
            r@ == "slide-rotate-ver"@,
    {
        "slide-rotate-ver"
    }
}

/// Flickers fast, steadying to full opacity as progress rises.
pub open spec fn flicker(ls: Seq<Seq<char>>, p: int) -> EffectView {
    let f = (sine(p * 47746 / ONE as int) + ONE) / 2;
    opaque(plain(join_lines(ls)), p + (ONE - p) * f / ONE as int)
}

/// The `flicker` effect.
pub struct Flicker;

impl Flicker {
    /// The frame at eased progress `p`.
    pub fn apply(&self, art: &AsciiArt, p: i64) -> (r: EffectResult)
        requires
            bounded(art@),
            eased_range(p as int),
        ensures
            r@ == flicker(art@, p as int),
    {
        let sn = sin_turns(div_floor(p * 47746, ONE));
        let f = (sn + ONE) / 2;
        proof {
            lemma_mul_abs((ONE - p) as int, f as int, 3 * ONE as int, ONE as int);
        }
        let o = p + div_floor((ONE - p) * f, ONE);
        EffectResult::new(art.render()).with_opacity(o)
    }

    /// The effect's name.
    pub fn name(&self) -> (r: &'static str)
        ensures
            r@ == "flicker"@,
    {
        "flicker"
    }
}

/// Drops from ten cells above its height, bouncing twice on the way.
pub open spec fn bounce_top(ls: Seq<Seq<char>>, p: int) -> EffectView {
    let sn = sine(p);
    let m = if sn < 0 {
        -sn
    } else {
        sn
    };
    moved(plain(join_lines(ls)), 0, -trunc_div((ONE - p) * (ls.len() + 10) + m * (ONE - p) / ONE as int * 5, ONE as int))
}

/// The `bounce-top` effect.
pub struct BounceTop;

impl BounceTop {
    /// The frame at eased progress `p`.
    pub fn apply(&self, art: &AsciiArt, p: i64) -> (r: EffectResult)
        requires
            bounded(art@),
            eased_range(p as int),
        ensures
            r@ == bounce_top(art@, p as int),
    {
        let (w, h) = dims(art);
        let sn = sin_turns(p);
        let m = if sn < 0 {
            -sn
        } else {
            sn
        };
        proof {
            lemma_mul_abs(m as int, (ONE - p) as int, ONE as int, 3 * ONE as int);
            lemma_div_bounds(m * (ONE - p), ONE as int, -3 * ONE, 3 * ONE);
            lemma_mul_abs((ONE - p) as int, h + 10, 3 * ONE as int, MAX_SIDE + 10);
        }
        let bf = div_floor(m * (ONE - p), ONE);
        let y = div_trunc((ONE - p) * (h + 10) + bf * 5, ONE, Ghost(MAX_OFFSET as int));
        EffectResult::new(art.render()).with_offset(0, -y as i32)
    }

    /// The effect's name.
    pub fn name(&self) -> (r: &'static str)
        ensures
            r@ == "bounce-top"@,
    {
        "bounce-top"
    }
}

/// Rises from ten cells below its height, bouncing twice on the way.
pub open spec fn bounce_bottom(ls: Seq<Seq<char>>, p: int) -> EffectView {
    let sn = sine(p);
    let m = if sn < 0 {
        -sn
    } else {
        sn
    };
    moved(plain(join_lines(ls)), 0, trunc_div((ONE - p) * (ls.len() + 10) + m * (ONE - p) / ONE as int * 5, ONE as int))
}

/// The `bounce-bottom` effect.
pub struct BounceBottom;

impl BounceBottom {
    /// The frame at eased progress `p`.
    pub fn apply(&self, art: &AsciiArt, p: i64) -> (r: EffectResult)
        requires
            bounded(art@),
            eased_range(p as int),
        ensures
            r@ == bounce_bottom(art@, p as int),
    {
        let (w, h) = dims(art);
        let sn = sin_turns(p);
        let m = if sn < 0 {
            -sn
        } else {
            sn
        };
        proof {
            lemma_mul_abs(m as int, (ONE - p) as int, ONE as int, 3 * ONE as int);
            lemma_div_bounds(m * (ONE - p), ONE as int, -3 * ONE, 3 * ONE);
            lemma_mul_abs((ONE - p) as int, h + 10, 3 * ONE as int, MAX_SIDE + 10);
        }
        let bf = div_floor(m * (ONE - p), ONE);
        let y = div_trunc((ONE - p) * (h + 10) + bf * 5, ONE, Ghost(MAX_OFFSET as int));
        EffectResult::new(art.render()).with_offset(0, y as i32)
    }

    /// The effect's name.
    pub fn name(&self) -> (r: &'static str)
        ensures
            r@ == "bounce-bottom"@,
    {
        "bounce-bottom"
    }
}

/// Tilts in from above and aside while growing from half size.
pub open spec fn tilt_in(ls: Seq<Seq<char>>, p: int) -> EffectView {
    let t = ONE - p;
    let s = HALF + p / 2;
    let x = trunc_div(t * 20 * sine(t / 2), ONE * ONE);
    moved(sized(plain(join_lines(scaled(ls, s))), s), x, -trunc_div(t * 15, ONE as int))
}

/// The `tilt-in` effect.
pub struct TiltIn;

impl TiltIn {
    /// The frame at eased progress `p`.
    pub fn apply(&self, art: &AsciiArt, p: i64) -> (r: EffectResult)
        requires
            bounded(art@),
            eased_range(p as int),
        ensures
            r@ == tilt_in(art@, p as int),
    {
        let t = ONE - p;
        let s = HALF + div_floor(p, 2);
        let sn = sin_turns(div_floor(t, 2));
        proof {
            lemma_mul_abs(t * 20, sn as int, 60 * ONE, ONE as int);
        }
        let x = div_trunc(t * 20 * sn, ONE * ONE, Ghost(MAX_OFFSET as int));
        let y = div_trunc(t * 15, ONE, Ghost(MAX_OFFSET as int));
        let scaled = scale_art(art, s);
        EffectResult::new(scaled.render()).with_scale(s).with_offset(x as i32, -y as i32)
    }

    /// The effect's name.
    pub fn name(&self) -> (r: &'static str)
        ensures
            r@ == "tilt-in"@,
    {
        "tilt-in"
    }
}

/// Blinks three times: visible in even sixths of the playback, hidden in odd.
pub open spec fn blink(ls: Seq<Seq<char>>, p: int) -> EffectView {
    let o = if (6 * p / ONE as int) % 2 == 0 {
        ONE as int
    } else {
        0
    };
    opaque(plain(join_lines(ls)), o)
}

/// The `blink` effect.
pub struct Blink;

impl Blink {
    /// The frame at eased progress `p`.
    pub fn apply(&self, art: &AsciiArt, p: i64) -> (r: EffectResult)
        requires
            bounded(art@),
            eased_range(p as int),
        ensures
            r@ == blink(art@, p as int),
    {
        let k = div_floor(6 * p, ONE);
        proof {
            lemma_div_bounds(6 * p, ONE as int, -12, 18);
            vstd::arithmetic::div_mod::lemma_mod_multiples_vanish(50, k as int, 2);
        }
        let o = if (k + 100) % 2 == 0 {
            ONE
        } else {
            0
        };
        EffectResult::new(art.render()).with_opacity(o)
    }

    /// The effect's name.
    pub fn name(&self) -> (r: &'static str)
        ensures
            r@ == "blink"@,
    {
        "blink"
    }
}

/// Comes into focus: grows from 0.7 while opacity rises as the square root of progress.
pub open spec fn focus_in(ls: Seq<Seq<char>>, p: int) -> EffectView {
    let s = 7000 + 3 * p / 10;
    let o = if p <= 0 {
        0
    } else {
        sqrt_floor(p * ONE)
    };
    opaque(sized(plain(join_lines(scaled(ls, s))), s), o)
}

/// The `focus-in` effect.
pub struct FocusIn;

impl FocusIn {
    /// The frame at eased progress `p`.
    pub fn apply(&self, art: &AsciiArt, p: i64) -> (r: EffectResult)
        requires
            bounded(art@),
            eased_range(p as int),
        ensures
            r@ == focus_in(art@, p as int),
    {
        let s = 7000 + div_floor(3 * p, 10);
        let o = if p <= 0 {
            0
        } else {
            isqrt(p * ONE)
        };
        let scaled = scale_art(art, s);
        EffectResult::new(scaled.render()).with_scale(s).with_opacity(o)
    }

    /// The effect's name.
    pub fn name(&self) -> (r: &'static str)
        ensures
            r@ == "focus-in"@,
    {
        "focus-in"
    }
}

/// Goes out of focus: shrinks toward 0.7 while opacity falls as the square root of what remains.
pub open spec fn blur_out(ls: Seq<Seq<char>>, p: int) -> EffectView {
    let s = ONE - 3 * p / 10;
    let o = if ONE - p <= 0 {
        0
    } else {
        sqrt_floor((ONE - p) * ONE)
    };
    opaque(sized(plain(join_lines(scaled(ls, s))), s), o)
}

/// The `blur-out` effect.
pub struct BlurOut;

impl BlurOut {
    /// The frame at eased progress `p`.
    pub fn apply(&self, art: &AsciiArt, p: i64) -> (r: EffectResult)
        requires
            bounded(art@),
            eased_range(p as int),
        ensures
            r@ == blur_out(art@, p as int),
    {
        let s = ONE - div_floor(3 * p, 10);
        let o = if ONE - p <= 0 {
            0
        } else {
            isqrt((ONE - p) * ONE)
        };
        let scaled = scale_art(art, s);
        EffectResult::new(scaled.render()).with_scale(s).with_opacity(o)
    }

    /// The effect's name.
    pub fn name(&self) -> (r: &'static str)
        ensures
            r@ == "blur-out"@,
    {
        "blur-out"
    }
}

/// Pops forward to 1.3 times its size by the middle, then settles back.
pub open spec fn shadow_pop(ls: Seq<Seq<char>>, p: int) -> EffectView {
    let s = if p < HALF {
        ONE + 6 * p / 10
    } else {
        13000 - (2 * p - ONE) * 3 / 10
    };
    sized(plain(join_lines(scaled(ls, s))), s)
}

/// The `shadow-pop` effect.
pub struct ShadowPop;

impl ShadowPop {
    /// The frame at eased progress `p`.
    pub fn apply(&self, art: &AsciiArt, p: i64) -> (r: EffectResult)
        requires
            bounded(art@),
            eased_range(p as int),
        ensures
            r@ == shadow_pop(art@, p as int),
    {
        let s = if p < HALF {
            ONE + div_floor(6 * p, 10)
        } else {
            13000 - (2 * p - ONE) * 3 / 10
        };
        let scaled = scale_art(art, s);
        EffectResult::new(scaled.render()).with_scale(s)
    }

    /// The effect's name.
    pub fn name(&self) -> (r: &'static str)
        ensures
            r@ == "shadow-pop"@,
    {
        "shadow-pop"
    }
}


/// Line `i` of the wave: shifted right by `max(0, floor(3 * sin))` cells, the
/// angle being the progress plus 0.0796 of a turn per line (taken modulo a turn).
pub open spec fn wave_line(l: Seq<char>, i: int, p: int) -> Seq<char> {
    let sn = sine(p + (i * 796) % (ONE as int));
    let k = count_of(3 * sn, ONE as int);
    Seq::new(k as nat, |q: int| ' ') + l
}

/// A line with `k` blank cells after every character (a blank itself included).
pub open spec fn spaced_line(l: Seq<char>, k: nat) -> Seq<char> {
    Seq::new(
        l.len() * (k + 1),
        |j: int|
            if j % (k + 1) as int == 0 {
                l[j / (k + 1) as int]
            } else {
                ' '
            },
    )
}

/// A line moved right by `off` cells (padded with blanks), or left by dropping `-off`
/// leading cells.
pub open spec fn sheared(l: Seq<char>, off: int) -> Seq<char> {
    if off > 0 {
        Seq::new(off as nat, |q: int| ' ') + l
    } else if off < 0 {
        if -off >= l.len() {
            seq![]
        } else {
            l.subrange(-off, l.len() as int)
        }
    } else {
        l
    }
}

fn reversed(l: &Vec<char>) -> (r: Vec<char>)
    ensures
        r@ == l@.reverse(),
{
    let mut r: Vec<char> = Vec::new();
    let mut i: usize = l.len();
    while i > 0
        invariant
            i <= l@.len(),
            r@.len() == l@.len() - i,
            forall|k: int| 0 <= k < r@.len() ==> #[trigger] r@[k] == l@[l@.len() - 1 - k],
        decreases i,
    {
        i = i - 1;
        r.push(l[i]);
    }
    proof {
        assert(r@ =~= l@.reverse());
    }
    r
}

fn spread(l: &Vec<char>, k: usize) -> (r: Vec<char>)
    requires
        1 <= k <= 9,
        l@.len() <= MAX_SIDE,
    ensures
        r@ == spaced_line(l@, k as nat),
{
    let mut r: Vec<char> = Vec::new();
    let mut i: usize = 0;
    let m = k + 1;
    while i < l.len()
        invariant
            1 <= k <= 9,
            m == k + 1,
            l@.len() <= MAX_SIDE,
            i <= l@.len(),
            r@.len() == i * m,
            forall|j: int| 0 <= j < r@.len() ==> #[trigger] r@[j] == spaced_line(l@, k as nat)[j],
        decreases l@.len() - i,
    {
        proof {
            assert(i * m + m <= l@.len() * m) by (nonlinear_arith)
                requires
                    i < l@.len(),
                    m >= 1,
            ;
            assert(l@.len() * m <= MAX_SIDE * 10) by (nonlinear_arith)
                requires
                    l@.len() <= MAX_SIDE,
                    m <= 10,
            ;
            vstd::arithmetic::div_mod::lemma_fundamental_div_mod_converse(
                (i * m) as int,
                m as int,
                i as int,
                0,
            );
        }
        r.push(l[i]);
        let mut q: usize = 1;
        while q < m
            invariant
                1 <= q <= m,
                m == k + 1,
                1 <= k <= 9,
                i < l@.len(),
                i * m + m <= l@.len() * m,
                r@.len() == i * m + q,
                forall|j: int| 0 <= j < r@.len() ==> #[trigger] r@[j] == spaced_line(l@, k as nat)[j],
            decreases m - q,
        {
            proof {
                vstd::arithmetic::div_mod::lemma_fundamental_div_mod_converse(
                    (i * m + q) as int,
                    m as int,
                    i as int,
                    q as int,
                );
            }
            r.push(' ');
            q = q + 1;
        }
        i = i + 1;
        proof {
            assert(r@.len() == i * m) by (nonlinear_arith)
                requires
                    r@.len() == (i - 1) * m + m,
            ;
        }
    }
    proof {
        assert(r@ =~= spaced_line(l@, k as nat));
    }
    r
}

fn shear(l: &Vec<char>, off: i64) -> (r: Vec<char>)
    requires
        -5 <= off <= 5,
    ensures
        r@ == sheared(l@, off as int),
{
    let mut r: Vec<char> = Vec::new();
    let mut start: usize = 0;
    if off > 0 {
        let mut q: i64 = 0;
        while q < off
            invariant
                0 <= q <= off,
                r@ == Seq::new(q as nat, |j: int| ' '),
            decreases off - q,
        {
            r.push(' ');
            q = q + 1;
            proof {
                assert(r@ =~= Seq::new(q as nat, |j: int| ' '));
            }
        }
    } else if off < 0 {
        if (-off) as usize >= l.len() {
            return r;
        }
        start = (-off) as usize;
    }
    let ghost pad = r@;
    let mut x: usize = start;
    while x < l.len()
        invariant
            start <= x <= l@.len(),
            r@ == pad + l@.subrange(start as int, x as int),
        decreases l@.len() - x,
    {
        r.push(l[x]);
        x = x + 1;
        proof {
            assert(r@ =~= pad + l@.subrange(start as int, x as int));
        }
    }
    proof {
        assert(l@.subrange(0, l@.len() as int) =~= l@);
        assert(r@ =~= sheared(l@, off as int));
    }
    r
}


/// The art with only its first `n` non-whitespace cells (in reading order) shown
/// and the later ones blank; whitespace kept.
pub open spec fn revealed(ls: Seq<Seq<char>>, n: int) -> Seq<Seq<char>> {
    Seq::new(
        ls.len(),
        |y: int|
            Seq::new(
                ls[y].len(),
                |x: int|
                    if is_white(ls[y][x]) || rank(ls, y, x) < n {
                        ls[y][x]
                    } else {
                        ' '
                    },
            ),
    )
}

/// How many cells a typewriter shows: `floor(total * f)` for a fraction `f` (fixed
/// point), none for `f <= 0`, and never more than there are.
pub open spec fn shown(total: int, f: int) -> int {
    let n = count_of(total * f, ONE as int);
    if n > total {
        total
    } else {
        n
    }
}

/// The art's rows with the first `n` non-whitespace cells shown, the rest blank.
fn reveal_rows(art: &AsciiArt, n: usize) -> (r: Vec<Vec<char>>)
    ensures
        rows(r@) == revealed(art@, n as int),
{
    let ls = art.char_rows();
    let ghost g = art@;
    let mut out: Vec<Vec<char>> = Vec::new();
    let mut left: usize = n;
    let mut y: usize = 0;
    while y < ls.len()
        invariant
            rows(ls@) == g,
            y <= ls@.len(),
            left == if n - visible_count(g.take(y as int)) > 0 {
                n - visible_count(g.take(y as int))
            } else {
                0
            },
            out@.len() == y,
            forall|k: int| 0 <= k < y ==> #[trigger] out@[k]@ == revealed(g, n as int)[k],
        decreases ls@.len() - y,
    {
        let line = &ls[y];
        let mut row: Vec<char> = Vec::new();
        let mut x: usize = 0;
        proof {
            assert(g[y as int] == line@);
            assert(line@.take(0) =~= seq![]);
        }
        while x < line.len()
            invariant
                rows(ls@) == g,
                y < g.len(),
                line@ == g[y as int],
                x <= line@.len(),
                left == if n - rank(g, y as int, x as int) > 0 {
                    n - rank(g, y as int, x as int)
                } else {
                    0
                },
                row@.len() == x,
                forall|j: int|
                    0 <= j < x ==> #[trigger] row@[j] == revealed(g, n as int)[y as int][j],
            decreases line@.len() - x,
        {
            let c = line[x];
            proof {
                lemma_visible_in_step(line@, x as int);
            }
            if is_space(c) {
                row.push(c);
            } else {
                if left > 0 {
                    row.push(c);
                    left = left - 1;
                } else {
                    row.push(' ');
                }
            }
            x = x + 1;
        }
        proof {
            assert(line@.take(x as int) =~= line@);
            lemma_visible_count_step(g, y as int);
            assert(row@ =~= revealed(g, n as int)[y as int]);
        }
        out.push(row);
        y = y + 1;
    }
    proof {
        assert(rows(out@) =~= revealed(g, n as int));
    }
    out
}

/// The number of cells a typewriter shows at fraction `f` of `total`.
fn shown_count(total: usize, f: i64) -> (r: usize)
    requires
        eased_range(f as int) || (EASED_MIN <= ONE - f <= EASED_MAX),
    ensures
        r == shown(total as int, f as int),
{
    if f <= 0 {
        proof {
            assert(total * f <= 0) by (nonlinear_arith)
                requires
                    f <= 0,
                    total >= 0,
            ;
        }
        return 0;
    }
    proof {
        assert(total * f <= 0xffff_ffff_ffff_ffff * 0x7fff_ffff_ffff_ffff) by (nonlinear_arith)
            requires
                0 <= total <= 0xffff_ffff_ffff_ffff,
                0 < f <= 0x7fff_ffff_ffff_ffff,
        ;
    }
    let n: u128 = total as u128 * f as u128 / ONE as u128;
    if n > total as u128 {
        total
    } else {
        n as usize
    }
}

/// Types the art out: the first `floor(total * p)` non-whitespace cells in reading order are shown, later ones blank.
pub open spec fn typewriter(ls: Seq<Seq<char>>, p: int) -> EffectView {
    plain(join_lines(revealed(ls, shown(visible_count(ls) as int, p))))
}

/// The `typewriter` effect.
pub struct Typewriter;

impl Typewriter {
    /// The frame at eased progress `p`.
    pub fn apply(&self, art: &AsciiArt, p: i64) -> (r: EffectResult)
        requires
            bounded(art@),
            eased_range(p as int),
        ensures
            r@ == typewriter(art@, p as int),
    {
        let total = art.char_count();
        let n = shown_count(total, p);
        let out = reveal_rows(art, n);
        EffectResult::new(string_of(&join_rows(&out)))
    }

    /// The effect's name.
    pub fn name(&self) -> (r: &'static str)
        ensures
            r@ == "typewriter"@,
    {
        "typewriter"
    }
}

/// Erases the art in typing order: `floor(total * (1 - p))` cells stay shown.
pub open spec fn typewriter_reverse(ls: Seq<Seq<char>>, p: int) -> EffectView {
    plain(join_lines(revealed(ls, shown(visible_count(ls) as int, ONE - p))))
}

/// The `typewriter-reverse` effect.
pub struct TypewriterReverse;

impl TypewriterReverse {
    /// The frame at eased progress `p`.
    pub fn apply(&self, art: &AsciiArt, p: i64) -> (r: EffectResult)
        requires
            bounded(art@),
            eased_range(p as int),
        ensures
            r@ == typewriter_reverse(art@, p as int),
    {
        let total = art.char_count();
        let n = shown_count(total, ONE - p);
        let out = reveal_rows(art, n);
        EffectResult::new(string_of(&join_rows(&out)))
    }

    /// The effect's name.
    pub fn name(&self) -> (r: &'static str)
        ensures
            r@ == "typewriter-reverse"@,
    {
        "typewriter-reverse"
    }
}

/// Each line shifts right by up to three cells along a sine wave that travels with progress.
pub open spec fn wave(ls: Seq<Seq<char>>, p: int) -> EffectView {
    plain(join_lines(Seq::new(ls.len(), |i: int| wave_line(ls[i], i, p))))
}

/// The `wave` effect.
pub struct Wave;

impl Wave {
    /// The frame at eased progress `p`.
    pub fn apply(&self, art: &AsciiArt, p: i64) -> (r: EffectResult)
        requires
            bounded(art@),
            eased_range(p as int),
        ensures
            r@ == wave(art@, p as int),
    {
        let ls = art.char_rows();
        let ghost g = art@;
        let mut out: Vec<Vec<char>> = Vec::new();
        let mut i: usize = 0;
        while i < ls.len()
            invariant
                rows(ls@) == g,
                bounded(g),
                eased_range(p as int),
                i <= ls@.len(),
                out@.len() == i,
                forall|k: int| 0 <= k < i ==> #[trigger] out@[k]@ == wave_line(g[k], k, p as int),
            decreases ls@.len() - i,
        {
            let phase = ((i % (ONE as usize)) as i64) * 796 % ONE;
            proof {
                vstd::arithmetic::div_mod::lemma_mod_mod((i as int) * 796, ONE as int, 796);
                assert(((i % 10000) as int * 796) % 10000 == (i as int * 796) % 10000) by {
                    vstd::arithmetic::div_mod::lemma_mul_mod_noop_left(i as int, 796, 10000);
                }
            }
            let sn = sin_turns(p + phase);
            let k = if sn <= 0 {
                0
            } else {
                3 * sn / ONE
            };
            let mut row: Vec<char> = Vec::new();
            let mut j: i64 = 0;
            while j < k
                invariant
                    0 <= j <= k <= 3,
                    row@ == Seq::new(j as nat, |q: int| ' '),
                decreases k - j,
            {
                row.push(' ');
                j = j + 1;
                proof {
                    assert(row@ =~= Seq::new(j as nat, |q: int| ' '));
                }
            }
            let line = &ls[i];
            let mut x: usize = 0;
            let ghost pad = row@;
            while x < line.len()
                invariant
                    x <= line@.len(),
                    row@ == pad + line@.take(x as int),
                decreases line@.len() - x,
            {
                row.push(line[x]);
                x = x + 1;
                proof {
                    assert(row@ =~= pad + line@.take(x as int));
                }
            }
            proof {
                assert(line@.take(x as int) =~= line@);
                assert(row@ =~= wave_line(g[i as int], i as int, p as int));
            }
            out.push(row);
            i = i + 1;
        }
        proof {
            assert(rows(out@) =~= Seq::new(g.len(), |i: int| wave_line(g[i], i, p as int)));
        }
        EffectResult::new(string_of(&join_rows(&out)))
    }

    /// The effect's name.
    pub fn name(&self) -> (r: &'static str)
        ensures
            r@ == "wave"@,
    {
        "wave"
    }
}

/// Narrows to nothing over the first half, then shows each line reversed.
pub open spec fn flip_horizontal(ls: Seq<Seq<char>>, p: int) -> EffectView {
    let s = ONE - 2 * p;
    if s <= 0 {
        plain(join_lines(ls.map_values(|l: Seq<char>| l.reverse())))
    } else {
        sized(plain(join_lines(scaled(ls, s))), s)
    }
}

/// The `flip-horizontal` effect.
pub struct FlipHorizontal;

impl FlipHorizontal {
    /// The frame at eased progress `p`.
    pub fn apply(&self, art: &AsciiArt, p: i64) -> (r: EffectResult)
        requires
            bounded(art@),
            eased_range(p as int),
        ensures
            r@ == flip_horizontal(art@, p as int),
    {
        let s = ONE - 2 * p;
        if s <= 0 {
            let ls = art.char_rows();
            let ghost g = art@;
            let mut out: Vec<Vec<char>> = Vec::new();
            let mut i: usize = 0;
            while i < ls.len()
                invariant
                    rows(ls@) == g,
                    i <= ls@.len(),
                    out@.len() == i,
                    forall|k: int| 0 <= k < i ==> #[trigger] out@[k]@ == g[k].reverse(),
                decreases ls@.len() - i,
            {
                out.push(reversed(&ls[i]));
                i = i + 1;
            }
            proof {
                assert(rows(out@) =~= g.map_values(|l: Seq<char>| l.reverse()));
            }
            EffectResult::new(string_of(&join_rows(&out)))
        } else {
            let scaled = scale_art(art, s);
            EffectResult::new(scaled.render()).with_scale(s)
        }
    }

    /// The effect's name.
    pub fn name(&self) -> (r: &'static str)
        ensures
            r@ == "flip-horizontal"@,
    {
        "flip-horizontal"
    }
}

/// Flattens over the first half (never below 0.1), then grows back upside down.
pub open spec fn flip_vertical(ls: Seq<Seq<char>>, p: int) -> EffectView {
    if p > HALF {
        let s = 2 * p - ONE;
        sized(plain(join_lines(scaled(ls.reverse(), s))), s)
    } else {
        let d = if 2 * p < ONE {
            2 * p
        } else {
            ONE as int
        };
        let s = if ONE - d < 1000 {
            1000
        } else {
            ONE - d
        };
        sized(plain(join_lines(scaled(ls, s))), s)
    }
}

/// The `flip-vertical` effect.
pub struct FlipVertical;

impl FlipVertical {
    /// The frame at eased progress `p`.
    pub fn apply(&self, art: &AsciiArt, p: i64) -> (r: EffectResult)
        requires
            bounded(art@),
            eased_range(p as int),
        ensures
            r@ == flip_vertical(art@, p as int),
    {
        if p > HALF {
            let ls = art.char_rows();
            let ghost g = art@;
            let mut out: Vec<Vec<char>> = Vec::new();
            let mut i: usize = ls.len();
            while i > 0
                invariant
                    rows(ls@) == g,
                    i <= ls@.len(),
                    out@.len() == ls@.len() - i,
                    forall|k: int|
                        0 <= k < out@.len() ==> #[trigger] out@[k]@ == g[g.len() - 1 - k],
                decreases i,
            {
                i = i - 1;
                out.push(copy_chars(&ls[i]));
            }
            let flipped = AsciiArt::from_rows(out);
            proof {
                assert(flipped@ =~= g.reverse());
                assert(bounded(flipped@));
            }
            let s = 2 * p - ONE;
            let scaled = scale_art(&flipped, s);
            EffectResult::new(scaled.render()).with_scale(s)
        } else {
            let d = if 2 * p < ONE {
                2 * p
            } else {
                ONE
            };
            let s = if ONE - d < 1000 {
                1000
            } else {
                ONE - d
            };
            let scaled = scale_art(art, s);
            EffectResult::new(scaled.render()).with_scale(s)
        }
    }

    /// The effect's name.
    pub fn name(&self) -> (r: &'static str)
        ensures
            r@ == "flip-vertical"@,
    {
        "flip-vertical"
    }
}

/// Letter spacing closes from three cells to none.
pub open spec fn tracking_in(ls: Seq<Seq<char>>, p: int) -> EffectView {
    let k = count_of(3 * (ONE - p), ONE as int);
    if k == 0 {
        plain(join_lines(ls))
    } else {
        plain(join_lines(Seq::new(ls.len(), |i: int| spaced_line(ls[i], k as nat))))
    }
}

/// The `tracking-in` effect.
pub struct TrackingIn;

impl TrackingIn {
    /// The frame at eased progress `p`.
    pub fn apply(&self, art: &AsciiArt, p: i64) -> (r: EffectResult)
        requires
            bounded(art@),
            eased_range(p as int),
        ensures
            r@ == tracking_in(art@, p as int),
    {
        let f = ONE - p;
        let k: usize = if f <= 0 {
            0
        } else {
            (3 * f / ONE) as usize
        };
        if k == 0 {
            return EffectResult::new(art.render());
        }
        let ls = art.char_rows();
        let ghost g = art@;
        let mut out: Vec<Vec<char>> = Vec::new();
        let mut i: usize = 0;
        while i < ls.len()
            invariant
                rows(ls@) == g,
                bounded(g),
                1 <= k <= 9,
                i <= ls@.len(),
                out@.len() == i,
                forall|q: int| 0 <= q < i ==> #[trigger] out@[q]@ == spaced_line(g[q], k as nat),
            decreases ls@.len() - i,
        {
            proof {
                assert(g[i as int].len() <= MAX_SIDE);
            }
            out.push(spread(&ls[i], k));
            i = i + 1;
        }
        proof {
            assert(rows(out@) =~= Seq::new(g.len(), |i: int| spaced_line(g[i], k as nat)));
        }
        EffectResult::new(string_of(&join_rows(&out)))
    }

    /// The effect's name.
    pub fn name(&self) -> (r: &'static str)
        ensures
            r@ == "tracking-in"@,
    {
        "tracking-in"
    }
}

/// Letter spacing opens from none to three cells.
pub open spec fn tracking_out(ls: Seq<Seq<char>>, p: int) -> EffectView {
    let k = count_of(3 * (p), ONE as int);
    if k == 0 {
        plain(join_lines(ls))
    } else {
        plain(join_lines(Seq::new(ls.len(), |i: int| spaced_line(ls[i], k as nat))))
    }
}

/// The `tracking-out` effect.
pub struct TrackingOut;

impl TrackingOut {
    /// The frame at eased progress `p`.
    pub fn apply(&self, art: &AsciiArt, p: i64) -> (r: EffectResult)
        requires
            bounded(art@),
            eased_range(p as int),
        ensures
            r@ == tracking_out(art@, p as int),
    {
        let f = p;
        let k: usize = if f <= 0 {
            0
        } else {
            (3 * f / ONE) as usize
        };
        if k == 0 {
            return EffectResult::new(art.render());
        }
        let ls = art.char_rows();
        let ghost g = art@;
        let mut out: Vec<Vec<char>> = Vec::new();
        let mut i: usize = 0;
        while i < ls.len()
            invariant
                rows(ls@) == g,
                bounded(g),
                1 <= k <= 9,
                i <= ls@.len(),
                out@.len() == i,
                forall|q: int| 0 <= q < i ==> #[trigger] out@[q]@ == spaced_line(g[q], k as nat),
            decreases ls@.len() - i,
        {
            proof {
                assert(g[i as int].len() <= MAX_SIDE);
            }
            out.push(spread(&ls[i], k));
            i = i + 1;
        }
        proof {
            assert(rows(out@) =~= Seq::new(g.len(), |i: int| spaced_line(g[i], k as nat)));
        }
        EffectResult::new(string_of(&join_rows(&out)))
    }

    /// The effect's name.
    pub fn name(&self) -> (r: &'static str)
        ensures
            r@ == "tracking-out"@,
    {
        "tracking-out"
    }
}

/// Shears the lines about the middle one, up to five cells, through one turn.
pub open spec fn rotate_center(ls: Seq<Seq<char>>, p: int) -> EffectView {
    let sn = sine(p);
    let n = if ls.len() > 0 {
        ls.len() as int
    } else {
        1
    };
    plain(join_lines(Seq::new(ls.len(), |i: int| sheared(ls[i], trunc_div(sn * (i * ONE / (n as int) - HALF) * 5, ONE * ONE)))))
}

/// The `rotate-center` effect.
pub struct RotateCenter;

impl RotateCenter {
    /// The frame at eased progress `p`.
    pub fn apply(&self, art: &AsciiArt, p: i64) -> (r: EffectResult)
        requires
            bounded(art@),
            eased_range(p as int),
        ensures
            r@ == rotate_center(art@, p as int),
    {
        let sn = sin_turns(p);
        let ls = art.char_rows();
        let ghost g = art@;
        let n: i64 = if ls.len() > 0 {
            ls.len() as i64
        } else {
            1
        };
        proof {
            assert(n <= MAX_SIDE);
        }
        let mut out: Vec<Vec<char>> = Vec::new();
        let mut i: usize = 0;
        while i < ls.len()
            invariant
                rows(ls@) == g,
                bounded(g),
                n == (if g.len() > 0 { g.len() as int } else { 1 }),
                -ONE <= sn <= ONE,
                i <= ls@.len(),
                out@.len() == i,
                forall|k: int|
                    0 <= k < i ==> #[trigger] out@[k]@ == sheared(
                        g[k],
                        trunc_div(sn * (k * ONE / (n as int) - HALF) * 5, ONE * ONE),
                    ),
            decreases ls@.len() - i,
        {
            let ii = i as i64;
            proof {
                assert(ii * ONE <= n * ONE) by (nonlinear_arith)
                    requires
                        0 <= ii < n,
                ;
                lemma_div_bounds(ii * ONE, n as int, 0, ONE as int);
            }
            let lf = ii * ONE / n - HALF;
            proof {
                lemma_mul_abs(sn as int, lf as int, ONE as int, ONE as int);
            }
            let off = div_trunc(sn * lf * 5, ONE * ONE, Ghost(5));
            out.push(shear(&ls[i], off));
            i = i + 1;
        }
        proof {
            assert(rows(out@) =~= Seq::new(
                g.len(),
                |i: int| sheared(g[i], trunc_div(sn * (i * ONE / (n as int) - HALF) * 5, ONE * ONE)),
            ));
        }
        EffectResult::new(string_of(&join_rows(&out)))
    }

    /// The effect's name.
    pub fn name(&self) -> (r: &'static str)
        ensures
            r@ == "rotate-center"@,
    {
        "rotate-center"
    }
}

/// The effects, by kind.
#[derive(Clone, Copy, Debug, PartialEq, Eq, Structural)]
pub enum EffectKind {
    FadeIn,
    FadeOut,
    FadeInOut,
    SlideInTop,
    SlideInBottom,
    SlideInLeft,
    SlideInRight,
    ScaleUp,
    ScaleDown,
    Pulse,
    BounceIn,
    BounceOut,
    Typewriter,
    TypewriterReverse,
    Wave,
    Jello,
    ColorCycle,
    Rainbow,
    GradientFlow,
    RotateIn,
    RotateOut,
    Shake,
    Wobble,
    Vibrate,
    Heartbeat,
    FlipHorizontal,
    FlipVertical,
    Swing,
    Sway,
    RollIn,
    RollOut,
    PuffIn,
    PuffOut,
    SlideRotateHor,
    SlideRotateVer,
    Flicker,
    TrackingIn,
    TrackingOut,
    BounceTop,
    BounceBottom,
    TiltIn,
    SlideOutTop,
    SlideOutBottom,
    SlideOutLeft,
    SlideOutRight,
    Blink,
    FocusIn,
    BlurOut,
    ShadowDrop,
    ShadowPop,
    RotateCenter,
}

/// The frame an effect kind draws from lines `ls` at progress `p`.
pub open spec fn effect_frame(kind: EffectKind, ls: Seq<Seq<char>>, p: int) -> EffectView {
    match kind {
        EffectKind::FadeIn => fade_in(ls, p),
        EffectKind::FadeOut => fade_out(ls, p),
        EffectKind::FadeInOut => fade_in_out(ls, p),
        EffectKind::SlideInTop => slide_in_top(ls, p),
        EffectKind::SlideInBottom => slide_in_bottom(ls, p),
        EffectKind::SlideInLeft => slide_in_left(ls, p),
        EffectKind::SlideInRight => slide_in_right(ls, p),
        EffectKind::ScaleUp => scale_up(ls, p),
        EffectKind::ScaleDown => scale_down(ls, p),
        EffectKind::Pulse => pulse(ls, p),
        EffectKind::BounceIn => bounce_in(ls, p),
        EffectKind::BounceOut => bounce_out_effect(ls, p),
        EffectKind::Typewriter => typewriter(ls, p),
        EffectKind::TypewriterReverse => typewriter_reverse(ls, p),
        EffectKind::Wave => wave(ls, p),
        EffectKind::Jello => jello(ls, p),
        EffectKind::ColorCycle => color_cycle(ls, p),
        EffectKind::Rainbow => rainbow(ls, p),
        EffectKind::GradientFlow => gradient_flow(ls, p),
        EffectKind::RotateIn => rotate_in(ls, p),
        EffectKind::RotateOut => rotate_out(ls, p),
        EffectKind::Shake => shake(ls, p),
        EffectKind::Wobble => wobble(ls, p),
        EffectKind::Vibrate => vibrate(ls, p),
        EffectKind::Heartbeat => heartbeat(ls, p),
        EffectKind::FlipHorizontal => flip_horizontal(ls, p),
        EffectKind::FlipVertical => flip_vertical(ls, p),
        EffectKind::Swing => swing(ls, p),
        EffectKind::Sway => sway(ls, p),
        EffectKind::RollIn => roll_in(ls, p),
        EffectKind::RollOut => roll_out(ls, p),
        EffectKind::PuffIn => puff_in(ls, p),
        EffectKind::PuffOut => puff_out(ls, p),
        EffectKind::SlideRotateHor => slide_rotate_hor(ls, p),
        EffectKind::SlideRotateVer => slide_rotate_ver(ls, p),
        EffectKind::Flicker => flicker(ls, p),
        EffectKind::TrackingIn => tracking_in(ls, p),
        EffectKind::TrackingOut => tracking_out(ls, p),
        EffectKind::BounceTop => bounce_top(ls, p),
        EffectKind::BounceBottom => bounce_bottom(ls, p),
        EffectKind::TiltIn => tilt_in(ls, p),
        EffectKind::SlideOutTop => slide_out_top(ls, p),
        EffectKind::SlideOutBottom => slide_out_bottom(ls, p),
        EffectKind::SlideOutLeft => slide_out_left(ls, p),
        EffectKind::SlideOutRight => slide_out_right(ls, p),
        EffectKind::Blink => blink(ls, p),
        EffectKind::FocusIn => focus_in(ls, p),
        EffectKind::BlurOut => blur_out(ls, p),
        EffectKind::ShadowDrop => shadow_drop(ls, p),
        EffectKind::ShadowPop => shadow_pop(ls, p),
        EffectKind::RotateCenter => rotate_center(ls, p),
    }
}

/// The name of an effect kind.
pub open spec fn effect_name(kind: EffectKind) -> Seq<char> {
    match kind {
        EffectKind::FadeIn => "fade-in"@,
        EffectKind::FadeOut => "fade-out"@,
        EffectKind::FadeInOut => "fade-in-out"@,
        EffectKind::SlideInTop => "slide-in-top"@,
        EffectKind::SlideInBottom => "slide-in-bottom"@,
        EffectKind::SlideInLeft => "slide-in-left"@,
        EffectKind::SlideInRight => "slide-in-right"@,
        EffectKind::ScaleUp => "scale-up"@,
        EffectKind::ScaleDown => "scale-down"@,
        EffectKind::Pulse => "pulse"@,
        EffectKind::BounceIn => "bounce-in"@,
        EffectKind::BounceOut => "bounce-out"@,
        EffectKind::Typewriter => "typewriter"@,
        EffectKind::TypewriterReverse => "typewriter-reverse"@,
        EffectKind::Wave => "wave"@,
        EffectKind::Jello => "jello"@,
        EffectKind::ColorCycle => "color-cycle"@,
        EffectKind::Rainbow => "rainbow"@,
        EffectKind::GradientFlow => "gradient-flow"@,
        EffectKind::RotateIn => "rotate-in"@,
        EffectKind::RotateOut => "rotate-out"@,
        EffectKind::Shake => "shake"@,
        EffectKind::Wobble => "wobble"@,
        EffectKind::Vibrate => "vibrate"@,
        EffectKind::Heartbeat => "heartbeat"@,
        EffectKind::FlipHorizontal => "flip-horizontal"@,
        EffectKind::FlipVertical => "flip-vertical"@,
        EffectKind::Swing => "swing"@,
        EffectKind::Sway => "sway"@,
        EffectKind::RollIn => "roll-in"@,
        EffectKind::RollOut => "roll-out"@,
        EffectKind::PuffIn => "puff-in"@,
        EffectKind::PuffOut => "puff-out"@,
        EffectKind::SlideRotateHor => "slide-rotate-hor"@,
        EffectKind::SlideRotateVer => "slide-rotate-ver"@,
        EffectKind::Flicker => "flicker"@,
        EffectKind::TrackingIn => "tracking-in"@,
        EffectKind::TrackingOut => "tracking-out"@,
        EffectKind::BounceTop => "bounce-top"@,
        EffectKind::BounceBottom => "bounce-bottom"@,
        EffectKind::TiltIn => "tilt-in"@,
        EffectKind::SlideOutTop => "slide-out-top"@,
        EffectKind::SlideOutBottom => "slide-out-bottom"@,
        EffectKind::SlideOutLeft => "slide-out-left"@,
        EffectKind::SlideOutRight => "slide-out-right"@,
        EffectKind::Blink => "blink"@,
        EffectKind::FocusIn => "focus-in"@,
        EffectKind::BlurOut => "blur-out"@,
        EffectKind::ShadowDrop => "shadow-drop"@,
        EffectKind::ShadowPop => "shadow-pop"@,
        EffectKind::RotateCenter => "rotate-center"@,
    }
}

/// The effect kind whose name is `name`, if any.
pub open spec fn effect_named(name: Seq<char>) -> Option<EffectKind> {
    if name == "fade-in"@ {
        Some(EffectKind::FadeIn)
    } else if name == "fade-out"@ {
        Some(EffectKind::FadeOut)
    } else if name == "fade-in-out"@ {
        Some(EffectKind::FadeInOut)
    } else if name == "slide-in-top"@ {
        Some(EffectKind::SlideInTop)
    } else if name == "slide-in-bottom"@ {
        Some(EffectKind::SlideInBottom)
    } else if name == "slide-in-left"@ {
        Some(EffectKind::SlideInLeft)
    } else if name == "slide-in-right"@ {
        Some(EffectKind::SlideInRight)
    } else if name == "scale-up"@ {
        Some(EffectKind::ScaleUp)
    } else if name == "scale-down"@ {
        Some(EffectKind::ScaleDown)
    } else if name == "pulse"@ {
        Some(EffectKind::Pulse)
    } else if name == "bounce-in"@ {
        Some(EffectKind::BounceIn)
    } else if name == "bounce-out"@ {
        Some(EffectKind::BounceOut)
    } else if name == "typewriter"@ {
        Some(EffectKind::Typewriter)
    } else if name == "typewriter-reverse"@ {
        Some(EffectKind::TypewriterReverse)
    } else if name == "wave"@ {
        Some(EffectKind::Wave)
    } else if name == "jello"@ {
        Some(EffectKind::Jello)
    } else if name == "color-cycle"@ {
        Some(EffectKind::ColorCycle)
    } else if name == "rainbow"@ {
        Some(EffectKind::Rainbow)
    } else if name == "gradient-flow"@ {
        Some(EffectKind::GradientFlow)
    } else if name == "rotate-in"@ {
        Some(EffectKind::RotateIn)
    } else if name == "rotate-out"@ {
        Some(EffectKind::RotateOut)
    } else if name == "shake"@ {
        Some(EffectKind::Shake)
    } else if name == "wobble"@ {
        Some(EffectKind::Wobble)
    } else if name == "vibrate"@ {
        Some(EffectKind::Vibrate)
    } else if name == "heartbeat"@ {
        Some(EffectKind::Heartbeat)
    } else if name == "flip-horizontal"@ {
        Some(EffectKind::FlipHorizontal)
    } else if name == "flip-vertical"@ {
        Some(EffectKind::FlipVertical)
    } else if name == "swing"@ {
        Some(EffectKind::Swing)
    } else if name == "sway"@ {
        Some(EffectKind::Sway)
    } else if name == "roll-in"@ {
        Some(EffectKind::RollIn)
    } else if name == "roll-out"@ {
        Some(EffectKind::RollOut)
    } else if name == "puff-in"@ {
        Some(EffectKind::PuffIn)
    } else if name == "puff-out"@ {
        Some(EffectKind::PuffOut)
    } else if name == "slide-rotate-hor"@ {
        Some(EffectKind::SlideRotateHor)
    } else if name == "slide-rotate-ver"@ {
        Some(EffectKind::SlideRotateVer)
    } else if name == "flicker"@ {
        Some(EffectKind::Flicker)
    } else if name == "tracking-in"@ {
        Some(EffectKind::TrackingIn)
    } else if name == "tracking-out"@ {
        Some(EffectKind::TrackingOut)
    } else if name == "bounce-top"@ {
        Some(EffectKind::BounceTop)
    } else if name == "bounce-bottom"@ {
        Some(EffectKind::BounceBottom)
    } else if name == "tilt-in"@ {
        Some(EffectKind::TiltIn)
    } else if name == "slide-out-top"@ {
        Some(EffectKind::SlideOutTop)
    } else if name == "slide-out-bottom"@ {
        Some(EffectKind::SlideOutBottom)
    } else if name == "slide-out-left"@ {
        Some(EffectKind::SlideOutLeft)
    } else if name == "slide-out-right"@ {
        Some(EffectKind::SlideOutRight)
    } else if name == "blink"@ {
        Some(EffectKind::Blink)
    } else if name == "focus-in"@ {
        Some(EffectKind::FocusIn)
    } else if name == "blur-out"@ {
        Some(EffectKind::BlurOut)
    } else if name == "shadow-drop"@ {
        Some(EffectKind::ShadowDrop)
    } else if name == "shadow-pop"@ {
        Some(EffectKind::ShadowPop)
    } else if name == "rotate-center"@ {
        Some(EffectKind::RotateCenter)
    } else {
        None
    }
}

impl EffectKind {
    /// The frame at eased progress `p`.
    pub fn apply(&self, art: &AsciiArt, p: i64) -> (r: EffectResult)
        requires
            bounded(art@),
            eased_range(p as int),
        ensures
            r@ == effect_frame(*self, art@, p as int),
    {
        match self {
            EffectKind::FadeIn => FadeIn.apply(art, p),
            EffectKind::FadeOut => FadeOut.apply(art, p),
            EffectKind::FadeInOut => FadeInOut.apply(art, p),
            EffectKind::SlideInTop => SlideInTop.apply(art, p),
            EffectKind::SlideInBottom => SlideInBottom.apply(art, p),
            EffectKind::SlideInLeft => SlideInLeft.apply(art, p),
            EffectKind::SlideInRight => SlideInRight.apply(art, p),
            EffectKind::ScaleUp => ScaleUp.apply(art, p),
            EffectKind::ScaleDown => ScaleDown.apply(art, p),
            EffectKind::Pulse => Pulse.apply(art, p),
            EffectKind::BounceIn => BounceIn.apply(art, p),
            EffectKind::BounceOut => BounceOut.apply(art, p),
            EffectKind::Typewriter => Typewriter.apply(art, p),
            EffectKind::TypewriterReverse => TypewriterReverse.apply(art, p),
            EffectKind::Wave => Wave.apply(art, p),
            EffectKind::Jello => Jello.apply(art, p),
            EffectKind::ColorCycle => ColorCycle.apply(art, p),
            EffectKind::Rainbow => Rainbow.apply(art, p),
            EffectKind::GradientFlow => GradientFlow.apply(art, p),
            EffectKind::RotateIn => RotateIn.apply(art, p),
            EffectKind::RotateOut => RotateOut.apply(art, p),
            EffectKind::Shake => Shake.apply(art, p),
            EffectKind::Wobble => Wobble.apply(art, p),
            EffectKind::Vibrate => Vibrate.apply(art, p),
            EffectKind::Heartbeat => Heartbeat.apply(art, p),
            EffectKind::FlipHorizontal => FlipHorizontal.apply(art, p),
            EffectKind::FlipVertical => FlipVertical.apply(art, p),
            EffectKind::Swing => Swing.apply(art, p),
            EffectKind::Sway => Sway.apply(art, p),
            EffectKind::RollIn => RollIn.apply(art, p),
            EffectKind::RollOut => RollOut.apply(art, p),
            EffectKind::PuffIn => PuffIn.apply(art, p),
            EffectKind::PuffOut => PuffOut.apply(art, p),
            EffectKind::SlideRotateHor => SlideRotateHor.apply(art, p),
            EffectKind::SlideRotateVer => SlideRotateVer.apply(art, p),
            EffectKind::Flicker => Flicker.apply(art, p),
            EffectKind::TrackingIn => TrackingIn.apply(art, p),
            EffectKind::TrackingOut => TrackingOut.apply(art, p),
            EffectKind::BounceTop => BounceTop.apply(art, p),
            EffectKind::BounceBottom => BounceBottom.apply(art, p),
            EffectKind::TiltIn => TiltIn.apply(art, p),
            EffectKind::SlideOutTop => SlideOutTop.apply(art, p),
            EffectKind::SlideOutBottom => SlideOutBottom.apply(art, p),
            EffectKind::SlideOutLeft => SlideOutLeft.apply(art, p),
            EffectKind::SlideOutRight => SlideOutRight.apply(art, p),
            EffectKind::Blink => Blink.apply(art, p),
            EffectKind::FocusIn => FocusIn.apply(art, p),
            EffectKind::BlurOut => BlurOut.apply(art, p),
            EffectKind::ShadowDrop => ShadowDrop.apply(art, p),
            EffectKind::ShadowPop => ShadowPop.apply(art, p),
            EffectKind::RotateCenter => RotateCenter.apply(art, p),
        }
    }

    /// The effect's name.
    pub fn name(&self) -> (r: &'static str)
        ensures
            r@ == effect_name(*self),
    {
        match self {
            EffectKind::FadeIn => FadeIn.name(),
            EffectKind::FadeOut => FadeOut.name(),
            EffectKind::FadeInOut => FadeInOut.name(),
            EffectKind::SlideInTop => SlideInTop.name(),
            EffectKind::SlideInBottom => SlideInBottom.name(),
            EffectKind::SlideInLeft => SlideInLeft.name(),
            EffectKind::SlideInRight => SlideInRight.name(),
            EffectKind::ScaleUp => ScaleUp.name(),
            EffectKind::ScaleDown => ScaleDown.name(),
            EffectKind::Pulse => Pulse.name(),
            EffectKind::BounceIn => BounceIn.name(),
            EffectKind::BounceOut => BounceOut.name(),
            EffectKind::Typewriter => Typewriter.name(),
            EffectKind::TypewriterReverse => TypewriterReverse.name(),
            EffectKind::Wave => Wave.name(),
            EffectKind::Jello => Jello.name(),
            EffectKind::ColorCycle => ColorCycle.name(),
            EffectKind::Rainbow => Rainbow.name(),
            EffectKind::GradientFlow => GradientFlow.name(),
            EffectKind::RotateIn => RotateIn.name(),
            EffectKind::RotateOut => RotateOut.name(),
            EffectKind::Shake => Shake.name(),
            EffectKind::Wobble => Wobble.name(),
            EffectKind::Vibrate => Vibrate.name(),
            EffectKind::Heartbeat => Heartbeat.name(),
            EffectKind::FlipHorizontal => FlipHorizontal.name(),
            EffectKind::FlipVertical => FlipVertical.name(),
            EffectKind::Swing => Swing.name(),
            EffectKind::Sway => Sway.name(),
            EffectKind::RollIn => RollIn.name(),
            EffectKind::RollOut => RollOut.name(),
            EffectKind::PuffIn => PuffIn.name(),
            EffectKind::PuffOut => PuffOut.name(),
            EffectKind::SlideRotateHor => SlideRotateHor.name(),
            EffectKind::SlideRotateVer => SlideRotateVer.name(),
            EffectKind::Flicker => Flicker.name(),
            EffectKind::TrackingIn => TrackingIn.name(),
            EffectKind::TrackingOut => TrackingOut.name(),
            EffectKind::BounceTop => BounceTop.name(),
            EffectKind::BounceBottom => BounceBottom.name(),
            EffectKind::TiltIn => TiltIn.name(),
            EffectKind::SlideOutTop => SlideOutTop.name(),
            EffectKind::SlideOutBottom => SlideOutBottom.name(),
            EffectKind::SlideOutLeft => SlideOutLeft.name(),
            EffectKind::SlideOutRight => SlideOutRight.name(),
            EffectKind::Blink => Blink.name(),
            EffectKind::FocusIn => FocusIn.name(),
            EffectKind::BlurOut => BlurOut.name(),
            EffectKind::ShadowDrop => ShadowDrop.name(),
            EffectKind::ShadowPop => ShadowPop.name(),
            EffectKind::RotateCenter => RotateCenter.name(),
        }
    }
}

/// The effect named `name`; an unknown name is an error that carries it.
pub fn get_effect(name: &str) -> (r: Result<EffectKind, PigletError>)
    ensures
        match effect_named(name@) {
            Some(k) => r == Ok::<EffectKind, PigletError>(k),
            None => r matches Err(PigletError::UnknownEffect(s)) && s@ == name@,
        },
{
    if str_eq(name, "fade-in") {
        Ok(EffectKind::FadeIn)
    } else if str_eq(name, "fade-out") {
        Ok(EffectKind::FadeOut)
    } else if str_eq(name, "fade-in-out") {
        Ok(EffectKind::FadeInOut)
    } else if str_eq(name, "slide-in-top") {
        Ok(EffectKind::SlideInTop)
    } else if str_eq(name, "slide-in-bottom") {
        Ok(EffectKind::SlideInBottom)
    } else if str_eq(name, "slide-in-left") {
        Ok(EffectKind::SlideInLeft)
    } else if str_eq(name, "slide-in-right") {
        Ok(EffectKind::SlideInRight)
    } else if str_eq(name, "scale-up") {
        Ok(EffectKind::ScaleUp)
    } else if str_eq(name, "scale-down") {
        Ok(EffectKind::ScaleDown)
    } else if str_eq(name, "pulse") {
        Ok(EffectKind::Pulse)
    } else if str_eq(name, "bounce-in") {
        Ok(EffectKind::BounceIn)
    } else if str_eq(name, "bounce-out") {
        Ok(EffectKind::BounceOut)
    } else if str_eq(name, "typewriter") {
        Ok(EffectKind::Typewriter)
    } else if str_eq(name, "typewriter-reverse") {
        Ok(EffectKind::TypewriterReverse)
    } else if str_eq(name, "wave") {
        Ok(EffectKind::Wave)
    } else if str_eq(name, "jello") {
        Ok(EffectKind::Jello)
    } else if str_eq(name, "color-cycle") {
        Ok(EffectKind::ColorCycle)
    } else if str_eq(name, "rainbow") {
        Ok(EffectKind::Rainbow)
    } else if str_eq(name, "gradient-flow") {
        Ok(EffectKind::GradientFlow)
    } else if str_eq(name, "rotate-in") {
        Ok(EffectKind::RotateIn)
    } else if str_eq(name, "rotate-out") {
        Ok(EffectKind::RotateOut)
    } else if str_eq(name, "shake") {
        Ok(EffectKind::Shake)
    } else if str_eq(name, "wobble") {
        Ok(EffectKind::Wobble)
    } else if str_eq(name, "vibrate") {
        Ok(EffectKind::Vibrate)
    } else if str_eq(name, "heartbeat") {
        Ok(EffectKind::Heartbeat)
    } else if str_eq(name, "flip-horizontal") {
        Ok(EffectKind::FlipHorizontal)
    } else if str_eq(name, "flip-vertical") {
        Ok(EffectKind::FlipVertical)
    } else if str_eq(name, "swing") {
        Ok(EffectKind::Swing)
    } else if str_eq(name, "sway") {
        Ok(EffectKind::Sway)
    } else if str_eq(name, "roll-in") {
        Ok(EffectKind::RollIn)
    } else if str_eq(name, "roll-out") {
        Ok(EffectKind::RollOut)
    } else if str_eq(name, "puff-in") {
        Ok(EffectKind::PuffIn)
    } else if str_eq(name, "puff-out") {
        Ok(EffectKind::PuffOut)
    } else if str_eq(name, "slide-rotate-hor") {
        Ok(EffectKind::SlideRotateHor)
    } else if str_eq(name, "slide-rotate-ver") {
        Ok(EffectKind::SlideRotateVer)
    } else if str_eq(name, "flicker") {
        Ok(EffectKind::Flicker)
    } else if str_eq(name, "tracking-in") {
        Ok(EffectKind::TrackingIn)
    } else if str_eq(name, "tracking-out") {
        Ok(EffectKind::TrackingOut)
    } else if str_eq(name, "bounce-top") {
        Ok(EffectKind::BounceTop)
    } else if str_eq(name, "bounce-bottom") {
        Ok(EffectKind::BounceBottom)
    } else if str_eq(name, "tilt-in") {
        Ok(EffectKind::TiltIn)
    } else if str_eq(name, "slide-out-top") {
        Ok(EffectKind::SlideOutTop)
    } else if str_eq(name, "slide-out-bottom") {
        Ok(EffectKind::SlideOutBottom)
    } else if str_eq(name, "slide-out-left") {
        Ok(EffectKind::SlideOutLeft)
    } else if str_eq(name, "slide-out-right") {
        Ok(EffectKind::SlideOutRight)
    } else if str_eq(name, "blink") {
        Ok(EffectKind::Blink)
    } else if str_eq(name, "focus-in") {
        Ok(EffectKind::FocusIn)
    } else if str_eq(name, "blur-out") {
        Ok(EffectKind::BlurOut)
    } else if str_eq(name, "shadow-drop") {
        Ok(EffectKind::ShadowDrop)
    } else if str_eq(name, "shadow-pop") {
        Ok(EffectKind::ShadowPop)
    } else if str_eq(name, "rotate-center") {
        Ok(EffectKind::RotateCenter)
    } else {
        Err(PigletError::UnknownEffect(String::from_str(name)))
    }
}

/// The effect kinds, in the order `list_effects` names them.
pub open spec fn all_effects() -> Seq<EffectKind> {
    seq![
        EffectKind::FadeIn,
        EffectKind::FadeOut,
        EffectKind::FadeInOut,
        EffectKind::SlideInTop,
        EffectKind::SlideInBottom,
        EffectKind::SlideInLeft,
        EffectKind::SlideInRight,
        EffectKind::ScaleUp,
        EffectKind::ScaleDown,
        EffectKind::Pulse,
        EffectKind::BounceIn,
        EffectKind::BounceOut,
        EffectKind::Typewriter,
        EffectKind::TypewriterReverse,
        EffectKind::Wave,
        EffectKind::Jello,
        EffectKind::ColorCycle,
        EffectKind::Rainbow,
        EffectKind::GradientFlow,
        EffectKind::RotateIn,
        EffectKind::RotateOut,
        EffectKind::Shake,
        EffectKind::Wobble,
        EffectKind::Vibrate,
        EffectKind::Heartbeat,
        EffectKind::FlipHorizontal,
        EffectKind::FlipVertical,
        EffectKind::Swing,
        EffectKind::Sway,
        EffectKind::RollIn,
        EffectKind::RollOut,
        EffectKind::PuffIn,
        EffectKind::PuffOut,
        EffectKind::SlideRotateHor,
        EffectKind::SlideRotateVer,
        EffectKind::Flicker,
        EffectKind::TrackingIn,
        EffectKind::TrackingOut,
        EffectKind::BounceTop,
        EffectKind::BounceBottom,
        EffectKind::TiltIn,
        EffectKind::SlideOutTop,
        EffectKind::SlideOutBottom,
        EffectKind::SlideOutLeft,
        EffectKind::SlideOutRight,
        EffectKind::Blink,
        EffectKind::FocusIn,
        EffectKind::BlurOut,
        EffectKind::ShadowDrop,
        EffectKind::ShadowPop,
        EffectKind::RotateCenter,
    ]
}

/// The effect names, in the order `list_effects` gives them.
pub open spec fn effect_names() -> Seq<Seq<char>> {
    seq![
        "fade-in"@,
        "fade-out"@,
        "fade-in-out"@,
        "slide-in-top"@,
        "slide-in-bottom"@,
        "slide-in-left"@,
        "slide-in-right"@,
        "scale-up"@,
        "scale-down"@,
        "pulse"@,
        "bounce-in"@,
        "bounce-out"@,
        "typewriter"@,
        "typewriter-reverse"@,
        "wave"@,
        "jello"@,
        "color-cycle"@,
        "rainbow"@,
        "gradient-flow"@,
        "rotate-in"@,
        "rotate-out"@,
        "shake"@,
        "wobble"@,
        "vibrate"@,
        "heartbeat"@,
        "flip-horizontal"@,
        "flip-vertical"@,
        "swing"@,
        "sway"@,
        "roll-in"@,
        "roll-out"@,
        "puff-in"@,
        "puff-out"@,
        "slide-rotate-hor"@,
        "slide-rotate-ver"@,
        "flicker"@,
        "tracking-in"@,
        "tracking-out"@,
        "bounce-top"@,
        "bounce-bottom"@,
        "tilt-in"@,
        "slide-out-top"@,
        "slide-out-bottom"@,
        "slide-out-left"@,
        "slide-out-right"@,
        "blink"@,
        "focus-in"@,
        "blur-out"@,
        "shadow-drop"@,
        "shadow-pop"@,
        "rotate-center"@,
    ]
}

/// Position of a kind in `all_effects`.
pub open spec fn effect_index(kind: EffectKind) -> int {
    match kind {
        EffectKind::FadeIn => 0,
        EffectKind::FadeOut => 1,
        EffectKind::FadeInOut => 2,
        EffectKind::SlideInTop => 3,
        EffectKind::SlideInBottom => 4,
        EffectKind::SlideInLeft => 5,
        EffectKind::SlideInRight => 6,
        EffectKind::ScaleUp => 7,
        EffectKind::ScaleDown => 8,
        EffectKind::Pulse => 9,
        EffectKind::BounceIn => 10,
        EffectKind::BounceOut => 11,
        EffectKind::Typewriter => 12,
        EffectKind::TypewriterReverse => 13,
        EffectKind::Wave => 14,
        EffectKind::Jello => 15,
        EffectKind::ColorCycle => 16,
        EffectKind::Rainbow => 17,
        EffectKind::GradientFlow => 18,
        EffectKind::RotateIn => 19,
        EffectKind::RotateOut => 20,
        EffectKind::Shake => 21,
        EffectKind::Wobble => 22,
        EffectKind::Vibrate => 23,
        EffectKind::Heartbeat => 24,
        EffectKind::FlipHorizontal => 25,
        EffectKind::FlipVertical => 26,
        EffectKind::Swing => 27,
        EffectKind::Sway => 28,
        EffectKind::RollIn => 29,
        EffectKind::RollOut => 30,
        EffectKind::PuffIn => 31,
        EffectKind::PuffOut => 32,
        EffectKind::SlideRotateHor => 33,
        EffectKind::SlideRotateVer => 34,
        EffectKind::Flicker => 35,
        EffectKind::TrackingIn => 36,
        EffectKind::TrackingOut => 37,
        EffectKind::BounceTop => 38,
        EffectKind::BounceBottom => 39,
        EffectKind::TiltIn => 40,
        EffectKind::SlideOutTop => 41,
        EffectKind::SlideOutBottom => 42,
        EffectKind::SlideOutLeft => 43,
        EffectKind::SlideOutRight => 44,
        EffectKind::Blink => 45,
        EffectKind::FocusIn => 46,
        EffectKind::BlurOut => 47,
        EffectKind::ShadowDrop => 48,
        EffectKind::ShadowPop => 49,
        EffectKind::RotateCenter => 50,
    }
}

/// Each listed name is accepted and names its own kind, the listed names are
/// distinct, and a name is accepted exactly when it is listed.
pub proof fn lemma_effect_names(s: Seq<char>)
    ensures
        effect_names().len() == all_effects().len() == 51,
        forall|i: int|
            0 <= i < effect_names().len() ==> effect_named(#[trigger] effect_names()[i]) == Some(
                all_effects()[i],
            ) && effect_name(all_effects()[i]) == effect_names()[i],
        forall|i: int, j: int|
            0 <= i < j < effect_names().len() ==> #[trigger] effect_names()[i]
                != #[trigger] effect_names()[j],
        effect_named(s) is Some <==> effect_names().contains(s),
{
    lemma_effect_table();
    assert forall|i: int, j: int|
        0 <= i < j < effect_names().len() implies #[trigger] effect_names()[i]
            != #[trigger] effect_names()[j] by {
        if effect_names()[i] == effect_names()[j] {
            assert(effect_index(all_effects()[i]) == i);
            assert(effect_index(all_effects()[j]) == j);
        }
    }
    if s == "fade-in"@ {
        assert(effect_names()[0] == s);
    } else if s == "fade-out"@ {
        assert(effect_names()[1] == s);
    } else if s == "fade-in-out"@ {
        assert(effect_names()[2] == s);
    } else if s == "slide-in-top"@ {
        assert(effect_names()[3] == s);
    } else if s == "slide-in-bottom"@ {
        assert(effect_names()[4] == s);
    } else if s == "slide-in-left"@ {
        assert(effect_names()[5] == s);
    } else if s == "slide-in-right"@ {
        assert(effect_names()[6] == s);
    } else if s == "scale-up"@ {
        assert(effect_names()[7] == s);
    } else if s == "scale-down"@ {
        assert(effect_names()[8] == s);
    } else if s == "pulse"@ {
        assert(effect_names()[9] == s);
    } else if s == "bounce-in"@ {
        assert(effect_names()[10] == s);
    } else if s == "bounce-out"@ {
        assert(effect_names()[11] == s);
    } else if s == "typewriter"@ {
        assert(effect_names()[12] == s);
    } else if s == "typewriter-reverse"@ {
        assert(effect_names()[13] == s);
    } else if s == "wave"@ {
        assert(effect_names()[14] == s);
    } else if s == "jello"@ {
        assert(effect_names()[15] == s);
    } else if s == "color-cycle"@ {
        assert(effect_names()[16] == s);
    } else if s == "rainbow"@ {
        assert(effect_names()[17] == s);
    } else if s == "gradient-flow"@ {
        assert(effect_names()[18] == s);
    } else if s == "rotate-in"@ {
        assert(effect_names()[19] == s);
    } else if s == "rotate-out"@ {
        assert(effect_names()[20] == s);
    } else if s == "shake"@ {
        assert(effect_names()[21] == s);
    } else if s == "wobble"@ {
        assert(effect_names()[22] == s);
    } else if s == "vibrate"@ {
        assert(effect_names()[23] == s);
    } else if s == "heartbeat"@ {
        assert(effect_names()[24] == s);
    } else if s == "flip-horizontal"@ {
        assert(effect_names()[25] == s);
    } else if s == "flip-vertical"@ {
        assert(effect_names()[26] == s);
    } else if s == "swing"@ {
        assert(effect_names()[27] == s);
    } else if s == "sway"@ {
        assert(effect_names()[28] == s);
    } else if s == "roll-in"@ {
        assert(effect_names()[29] == s);
    } else if s == "roll-out"@ {
        assert(effect_names()[30] == s);
    } else if s == "puff-in"@ {
        assert(effect_names()[31] == s);
    } else if s == "puff-out"@ {
        assert(effect_names()[32] == s);
    } else if s == "slide-rotate-hor"@ {
        assert(effect_names()[33] == s);
    } else if s == "slide-rotate-ver"@ {
        assert(effect_names()[34] == s);
    } else if s == "flicker"@ {
        assert(effect_names()[35] == s);
    } else if s == "tracking-in"@ {
        assert(effect_names()[36] == s);
    } else if s == "tracking-out"@ {
        assert(effect_names()[37] == s);
    } else if s == "bounce-top"@ {
        assert(effect_names()[38] == s);
    } else if s == "bounce-bottom"@ {
        assert(effect_names()[39] == s);
    } else if s == "tilt-in"@ {
        assert(effect_names()[40] == s);
    } else if s == "slide-out-top"@ {
        assert(effect_names()[41] == s);
    } else if s == "slide-out-bottom"@ {
        assert(effect_names()[42] == s);
    } else if s == "slide-out-left"@ {
        assert(effect_names()[43] == s);
    } else if s == "slide-out-right"@ {
        assert(effect_names()[44] == s);
    } else if s == "blink"@ {
        assert(effect_names()[45] == s);
    } else if s == "focus-in"@ {
        assert(effect_names()[46] == s);
    } else if s == "blur-out"@ {
        assert(effect_names()[47] == s);
    } else if s == "shadow-drop"@ {
        assert(effect_names()[48] == s);
    } else if s == "shadow-pop"@ {
        assert(effect_names()[49] == s);
    } else if s == "rotate-center"@ {
        assert(effect_names()[50] == s);
    }
    if effect_names().contains(s) {
        let i = choose|i: int| 0 <= i < effect_names().len() && effect_names()[i] == s;
        assert(effect_named(effect_names()[i]) is Some);
    }
}

#[verifier::rlimit(100)]
proof fn lemma_effect_table()
    ensures
        forall|i: int|
            0 <= i < effect_names().len() ==> effect_named(#[trigger] effect_names()[i]) == Some(
                all_effects()[i],
            ) && effect_name(all_effects()[i]) == effect_names()[i] && effect_index(all_effects()[i]) == i,
{
    lemma_named_0();
    assert(all_effects()[0] == EffectKind::FadeIn && effect_names()[0] == "fade-in"@);
    lemma_named_1();
    assert(all_effects()[1] == EffectKind::FadeOut && effect_names()[1] == "fade-out"@);
    lemma_named_2();
    assert(all_effects()[2] == EffectKind::FadeInOut && effect_names()[2] == "fade-in-out"@);
    lemma_named_3();
    assert(all_effects()[3] == EffectKind::SlideInTop && effect_names()[3] == "slide-in-top"@);
    lemma_named_4();
    assert(all_effects()[4] == EffectKind::SlideInBottom && effect_names()[4] == "slide-in-bottom"@);
    lemma_named_5();
    assert(all_effects()[5] == EffectKind::SlideInLeft && effect_names()[5] == "slide-in-left"@);
    lemma_named_6();
    assert(all_effects()[6] == EffectKind::SlideInRight && effect_names()[6] == "slide-in-right"@);
    lemma_named_7();
    assert(all_effects()[7] == EffectKind::ScaleUp && effect_names()[7] == "scale-up"@);
    lemma_named_8();
    assert(all_effects()[8] == EffectKind::ScaleDown && effect_names()[8] == "scale-down"@);
    lemma_named_9();
    assert(all_effects()[9] == EffectKind::Pulse && effect_names()[9] == "pulse"@);
    lemma_named_10();
    assert(all_effects()[10] == EffectKind::BounceIn && effect_names()[10] == "bounce-in"@);
    lemma_named_11();
    assert(all_effects()[11] == EffectKind::BounceOut && effect_names()[11] == "bounce-out"@);
    lemma_named_12();
    assert(all_effects()[12] == EffectKind::Typewriter && effect_names()[12] == "typewriter"@);
    lemma_named_13();
    assert(all_effects()[13] == EffectKind::TypewriterReverse && effect_names()[13] == "typewriter-reverse"@);
    lemma_named_14();
    assert(all_effects()[14] == EffectKind::Wave && effect_names()[14] == "wave"@);
    lemma_named_15();
    assert(all_effects()[15] == EffectKind::Jello && effect_names()[15] == "jello"@);
    lemma_named_16();
    assert(all_effects()[16] == EffectKind::ColorCycle && effect_names()[16] == "color-cycle"@);
    lemma_named_17();
    assert(all_effects()[17] == EffectKind::Rainbow && effect_names()[17] == "rainbow"@);
    lemma_named_18();
    assert(all_effects()[18] == EffectKind::GradientFlow && effect_names()[18] == "gradient-flow"@);
    lemma_named_19();
    assert(all_effects()[19] == EffectKind::RotateIn && effect_names()[19] == "rotate-in"@);
    lemma_named_20();
    assert(all_effects()[20] == EffectKind::RotateOut && effect_names()[20] == "rotate-out"@);
    lemma_named_21();
    assert(all_effects()[21] == EffectKind::Shake && effect_names()[21] == "shake"@);
    lemma_named_22();
    assert(all_effects()[22] == EffectKind::Wobble && effect_names()[22] == "wobble"@);
    lemma_named_23();
    assert(all_effects()[23] == EffectKind::Vibrate && effect_names()[23] == "vibrate"@);
    lemma_named_24();
    assert(all_effects()[24] == EffectKind::Heartbeat && effect_names()[24] == "heartbeat"@);
    lemma_named_25();
    assert(all_effects()[25] == EffectKind::FlipHorizontal && effect_names()[25] == "flip-horizontal"@);
    lemma_named_26();
    assert(all_effects()[26] == EffectKind::FlipVertical && effect_names()[26] == "flip-vertical"@);
    lemma_named_27();
    assert(all_effects()[27] == EffectKind::Swing && effect_names()[27] == "swing"@);
    lemma_named_28();
    assert(all_effects()[28] == EffectKind::Sway && effect_names()[28] == "sway"@);
    lemma_named_29();
    assert(all_effects()[29] == EffectKind::RollIn && effect_names()[29] == "roll-in"@);
    lemma_named_30();
    assert(all_effects()[30] == EffectKind::RollOut && effect_names()[30] == "roll-out"@);
    lemma_named_31();
    assert(all_effects()[31] == EffectKind::PuffIn && effect_names()[31] == "puff-in"@);
    lemma_named_32();
    assert(all_effects()[32] == EffectKind::PuffOut && effect_names()[32] == "puff-out"@);
    lemma_named_33();
    assert(all_effects()[33] == EffectKind::SlideRotateHor && effect_names()[33] == "slide-rotate-hor"@);
    lemma_named_34();
    assert(all_effects()[34] == EffectKind::SlideRotateVer && effect_names()[34] == "slide-rotate-ver"@);
    lemma_named_35();
    assert(all_effects()[35] == EffectKind::Flicker && effect_names()[35] == "flicker"@);
    lemma_named_36();
    assert(all_effects()[36] == EffectKind::TrackingIn && effect_names()[36] == "tracking-in"@);
    lemma_named_37();
    assert(all_effects()[37] == EffectKind::TrackingOut && effect_names()[37] == "tracking-out"@);
    lemma_named_38();
    assert(all_effects()[38] == EffectKind::BounceTop && effect_names()[38] == "bounce-top"@);
    lemma_named_39();
    assert(all_effects()[39] == EffectKind::BounceBottom && effect_names()[39] == "bounce-bottom"@);
    lemma_named_40();
    assert(all_effects()[40] == EffectKind::TiltIn && effect_names()[40] == "tilt-in"@);
    lemma_named_41();
    assert(all_effects()[41] == EffectKind::SlideOutTop && effect_names()[41] == "slide-out-top"@);
    lemma_named_42();
    assert(all_effects()[42] == EffectKind::SlideOutBottom && effect_names()[42] == "slide-out-bottom"@);
    lemma_named_43();
    assert(all_effects()[43] == EffectKind::SlideOutLeft && effect_names()[43] == "slide-out-left"@);
    lemma_named_44();
    assert(all_effects()[44] == EffectKind::SlideOutRight && effect_names()[44] == "slide-out-right"@);
    lemma_named_45();
    assert(all_effects()[45] == EffectKind::Blink && effect_names()[45] == "blink"@);
    lemma_named_46();
    assert(all_effects()[46] == EffectKind::FocusIn && effect_names()[46] == "focus-in"@);
    lemma_named_47();
    assert(all_effects()[47] == EffectKind::BlurOut && effect_names()[47] == "blur-out"@);
    lemma_named_48();
    assert(all_effects()[48] == EffectKind::ShadowDrop && effect_names()[48] == "shadow-drop"@);
    lemma_named_49();
    assert(all_effects()[49] == EffectKind::ShadowPop && effect_names()[49] == "shadow-pop"@);
    lemma_named_50();
    assert(all_effects()[50] == EffectKind::RotateCenter && effect_names()[50] == "rotate-center"@);
    assert forall|i: int| 0 <= i < effect_names().len() implies effect_named(#[trigger] effect_names()[i]) == Some(
        all_effects()[i],
    ) && effect_name(all_effects()[i]) == effect_names()[i] && effect_index(all_effects()[i]) == i by {
        if i == 0 {}
        if i == 1 {}
        if i == 2 {}
        if i == 3 {}
        if i == 4 {}
        if i == 5 {}
        if i == 6 {}
        if i == 7 {}
        if i == 8 {}
        if i == 9 {}
        if i == 10 {}
        if i == 11 {}
        if i == 12 {}
        if i == 13 {}
        if i == 14 {}
        if i == 15 {}
        if i == 16 {}
        if i == 17 {}
        if i == 18 {}
        if i == 19 {}
        if i == 20 {}
        if i == 21 {}
        if i == 22 {}
        if i == 23 {}
        if i == 24 {}
        if i == 25 {}
        if i == 26 {}
        if i == 27 {}
        if i == 28 {}
        if i == 29 {}
        if i == 30 {}
        if i == 31 {}
        if i == 32 {}
        if i == 33 {}
        if i == 34 {}
        if i == 35 {}
        if i == 36 {}
        if i == 37 {}
        if i == 38 {}
        if i == 39 {}
        if i == 40 {}
        if i == 41 {}
        if i == 42 {}
        if i == 43 {}
        if i == 44 {}
        if i == 45 {}
        if i == 46 {}
        if i == 47 {}
        if i == 48 {}
        if i == 49 {}
        if i == 50 {}
    }
}

proof fn lemma_named_0()
    ensures
        effect_named("fade-in"@) == Some(EffectKind::FadeIn),
{
    reveal_strlit("fade-in");
}

proof fn lemma_named_1()
    ensures
        effect_named("fade-out"@) == Some(EffectKind::FadeOut),
{
    reveal_strlit("fade-out");
    reveal_strlit("fade-in");
    assert("fade-out"@.len() != "fade-in"@.len());
}

proof fn lemma_named_2()
    ensures
        effect_named("fade-in-out"@) == Some(EffectKind::FadeInOut),
{
    reveal_strlit("fade-in-out");
    reveal_strlit("fade-in");
    assert("fade-in-out"@.len() != "fade-in"@.len());
    reveal_strlit("fade-out");
    assert("fade-in-out"@.len() != "fade-out"@.len());
}

proof fn lemma_named_3()
    ensures
        effect_named("slide-in-top"@) == Some(EffectKind::SlideInTop),
{
    reveal_strlit("slide-in-top");
    reveal_strlit("fade-in");
    assert("slide-in-top"@.len() != "fade-in"@.len());
    reveal_strlit("fade-out");
    assert("slide-in-top"@.len() != "fade-out"@.len());
    reveal_strlit("fade-in-out");
    assert("slide-in-top"@.len() != "fade-in-out"@.len());
}

proof fn lemma_named_4()
    ensures
        effect_named("slide-in-bottom"@) == Some(EffectKind::SlideInBottom),
{
    reveal_strlit("slide-in-bottom");
    reveal_strlit("fade-in");
    assert("slide-in-bottom"@.len() != "fade-in"@.len());
    reveal_strlit("fade-out");
    assert("slide-in-bottom"@.len() != "fade-out"@.len());
    reveal_strlit("fade-in-out");
    assert("slide-in-bottom"@.len() != "fade-in-out"@.len());
    reveal_strlit("slide-in-top");
    assert("slide-in-bottom"@.len() != "slide-in-top"@.len());
}

proof fn lemma_named_5()
    ensures
        effect_named("slide-in-left"@) == Some(EffectKind::SlideInLeft),
{
    reveal_strlit("slide-in-left");
    reveal_strlit("fade-in");
    assert("slide-in-left"@.len() != "fade-in"@.len());
    reveal_strlit("fade-out");
    assert("slide-in-left"@.len() != "fade-out"@.len());
    reveal_strlit("fade-in-out");
    assert("slide-in-left"@.len() != "fade-in-out"@.len());
    reveal_strlit("slide-in-top");
    assert("slide-in-left"@.len() != "slide-in-top"@.len());
    reveal_strlit("slide-in-bottom");
    assert("slide-in-left"@.len() != "slide-in-bottom"@.len());
}

proof fn lemma_named_6()
    ensures
        effect_named("slide-in-right"@) == Some(EffectKind::SlideInRight),
{
    reveal_strlit("slide-in-right");
    reveal_strlit("fade-in");
    assert("slide-in-right"@.len() != "fade-in"@.len());
    reveal_strlit("fade-out");
    assert("slide-in-right"@.len() != "fade-out"@.len());
    reveal_strlit("fade-in-out");
    assert("slide-in-right"@.len() != "fade-in-out"@.len());
    reveal_strlit("slide-in-top");
    assert("slide-in-right"@.len() != "slide-in-top"@.len());
    reveal_strlit("slide-in-bottom");
    assert("slide-in-right"@.len() != "slide-in-bottom"@.len());
    reveal_strlit("slide-in-left");
    assert("slide-in-right"@.len() != "slide-in-left"@.len());
}

proof fn lemma_named_7()
    ensures
        effect_named("scale-up"@) == Some(EffectKind::ScaleUp),
{
    reveal_strlit("scale-up");
    reveal_strlit("fade-in");
    assert("scale-up"@.len() != "fade-in"@.len());
    reveal_strlit("fade-out");
    assert("scale-up"@[0] != "fade-out"@[0]);
    reveal_strlit("fade-in-out");
    assert("scale-up"@.len() != "fade-in-out"@.len());
    reveal_strlit("slide-in-top");
    assert("scale-up"@.len() != "slide-in-top"@.len());
    reveal_strlit("slide-in-bottom");
    assert("scale-up"@.len() != "slide-in-bottom"@.len());
    reveal_strlit("slide-in-left");
    assert("scale-up"@.len() != "slide-in-left"@.len());
    reveal_strlit("slide-in-right");
    assert("scale-up"@.len() != "slide-in-right"@.len());
}

proof fn lemma_named_8()
    ensures
        effect_named("scale-down"@) == Some(EffectKind::ScaleDown),
{
    reveal_strlit("scale-down");
    reveal_strlit("fade-in");
    assert("scale-down"@.len() != "fade-in"@.len());
    reveal_strlit("fade-out");
    assert("scale-down"@.len() != "fade-out"@.len());
    reveal_strlit("fade-in-out");
    assert("scale-down"@.len() != "fade-in-out"@.len());
    reveal_strlit("slide-in-top");
    assert("scale-down"@.len() != "slide-in-top"@.len());
    reveal_strlit("slide-in-bottom");
    assert("scale-down"@.len() != "slide-in-bottom"@.len());
    reveal_strlit("slide-in-left");
    assert("scale-down"@.len() != "slide-in-left"@.len());
    reveal_strlit("slide-in-right");
    assert("scale-down"@.len() != "slide-in-right"@.len());
    reveal_strlit("scale-up");
    assert("scale-down"@.len() != "scale-up"@.len());
}

proof fn lemma_named_9()
    ensures
        effect_named("pulse"@) == Some(EffectKind::Pulse),
{
    reveal_strlit("pulse");
    reveal_strlit("fade-in");
    assert("pulse"@.len() != "fade-in"@.len());
    reveal_strlit("fade-out");
    assert("pulse"@.len() != "fade-out"@.len());
    reveal_strlit("fade-in-out");
    assert("pulse"@.len() != "fade-in-out"@.len());
    reveal_strlit("slide-in-top");
    assert("pulse"@.len() != "slide-in-top"@.len());
    reveal_strlit("slide-in-bottom");
    assert("pulse"@.len() != "slide-in-bottom"@.len());
    reveal_strlit("slide-in-left");
    assert("pulse"@.len() != "slide-in-left"@.len());
    reveal_strlit("slide-in-right");
    assert("pulse"@.len() != "slide-in-right"@.len());
    reveal_strlit("scale-up");
    assert("pulse"@.len() != "scale-up"@.len());
    reveal_strlit("scale-down");
    assert("pulse"@.len() != "scale-down"@.len());
}

proof fn lemma_named_10()
    ensures
        effect_named("bounce-in"@) == Some(EffectKind::BounceIn),
{
    reveal_strlit("bounce-in");
    reveal_strlit("fade-in");
    assert("bounce-in"@.len() != "fade-in"@.len());
    reveal_strlit("fade-out");
    assert("bounce-in"@.len() != "fade-out"@.len());
    reveal_strlit("fade-in-out");
    assert("bounce-in"@.len() != "fade-in-out"@.len());
    reveal_strlit("slide-in-top");
    assert("bounce-in"@.len() != "slide-in-top"@.len());
    reveal_strlit("slide-in-bottom");
    assert("bounce-in"@.len() != "slide-in-bottom"@.len());
    reveal_strlit("slide-in-left");
    assert("bounce-in"@.len() != "slide-in-left"@.len());
    reveal_strlit("slide-in-right");
    assert("bounce-in"@.len() != "slide-in-right"@.len());
    reveal_strlit("scale-up");
    assert("bounce-in"@.len() != "scale-up"@.len());
    reveal_strlit("scale-down");
    assert("bounce-in"@.len() != "scale-down"@.len());
    reveal_strlit("pulse");
    assert("bounce-in"@.len() != "pulse"@.len());
}

proof fn lemma_named_11()
    ensures
        effect_named("bounce-out"@) == Some(EffectKind::BounceOut),
{
    reveal_strlit("bounce-out");
    reveal_strlit("fade-in");
    assert("bounce-out"@.len() != "fade-in"@.len());
    reveal_strlit("fade-out");
    assert("bounce-out"@.len() != "fade-out"@.len());
    reveal_strlit("fade-in-out");
    assert("bounce-out"@.len() != "fade-in-out"@.len());
    reveal_strlit("slide-in-top");
    assert("bounce-out"@.len() != "slide-in-top"@.len());
    reveal_strlit("slide-in-bottom");
    assert("bounce-out"@.len() != "slide-in-bottom"@.len());
    reveal_strlit("slide-in-left");
    assert("bounce-out"@.len() != "slide-in-left"@.len());
    reveal_strlit("slide-in-right");
    assert("bounce-out"@.len() != "slide-in-right"@.len());
    reveal_strlit("scale-up");
    assert("bounce-out"@.len() != "scale-up"@.len());
    reveal_strlit("scale-down");
    assert("bounce-out"@[0] != "scale-down"@[0]);
    reveal_strlit("pulse");
    assert("bounce-out"@.len() != "pulse"@.len());
    reveal_strlit("bounce-in");
    assert("bounce-out"@.len() != "bounce-in"@.len());
}

proof fn lemma_named_12()
    ensures
        effect_named("typewriter"@) == Some(EffectKind::Typewriter),
{
    reveal_strlit("typewriter");
    reveal_strlit("fade-in");
    assert("typewriter"@.len() != "fade-in"@.len());
    reveal_strlit("fade-out");
    assert("typewriter"@.len() != "fade-out"@.len());
    reveal_strlit("fade-in-out");
    assert("typewriter"@.len() != "fade-in-out"@.len());
    reveal_strlit("slide-in-top");
    assert("typewriter"@.len() != "slide-in-top"@.len());
    reveal_strlit("slide-in-bottom");
    assert("typewriter"@.len() != "slide-in-bottom"@.len());
    reveal_strlit("slide-in-left");
    assert("typewriter"@.len() != "slide-in-left"@.len());
    reveal_strlit("slide-in-right");
    assert("typewriter"@.len() != "slide-in-right"@.len());
    reveal_strlit("scale-up");
    assert("typewriter"@.len() != "scale-up"@.len());
    reveal_strlit("scale-down");
    assert("typewriter"@[0] != "scale-down"@[0]);
    reveal_strlit("pulse");
    assert("typewriter"@.len() != "pulse"@.len());
    reveal_strlit("bounce-in");
    assert("typewriter"@.len() != "bounce-in"@.len());
    reveal_strlit("bounce-out");
    assert("typewriter"@[0] != "bounce-out"@[0]);
}

proof fn lemma_named_13()
    ensures
        effect_named("typewriter-reverse"@) == Some(EffectKind::TypewriterReverse),
{
    reveal_strlit("typewriter-reverse");
    reveal_strlit("fade-in");
    assert("typewriter-reverse"@.len() != "fade-in"@.len());
    reveal_strlit("fade-out");
    assert("typewriter-reverse"@.len() != "fade-out"@.len());
    reveal_strlit("fade-in-out");
    assert("typewriter-reverse"@.len() != "fade-in-out"@.len());
    reveal_strlit("slide-in-top");
    assert("typewriter-reverse"@.len() != "slide-in-top"@.len());
    reveal_strlit("slide-in-bottom");
    assert("typewriter-reverse"@.len() != "slide-in-bottom"@.len());
    reveal_strlit("slide-in-left");
    assert("typewriter-reverse"@.len() != "slide-in-left"@.len());
    reveal_strlit("slide-in-right");
    assert("typewriter-reverse"@.len() != "slide-in-right"@.len());
    reveal_strlit("scale-up");
    assert("typewriter-reverse"@.len() != "scale-up"@.len());
    reveal_strlit("scale-down");
    assert("typewriter-reverse"@.len() != "scale-down"@.len());
    reveal_strlit("pulse");
    assert("typewriter-reverse"@.len() != "pulse"@.len());
    reveal_strlit("bounce-in");
    assert("typewriter-reverse"@.len() != "bounce-in"@.len());
    reveal_strlit("bounce-out");
    assert("typewriter-reverse"@.len() != "bounce-out"@.len());
    reveal_strlit("typewriter");
    assert("typewriter-reverse"@.len() != "typewriter"@.len());
}

proof fn lemma_named_14()
    ensures
        effect_named("wave"@) == Some(EffectKind::Wave),
{
    reveal_strlit("wave");
    reveal_strlit("fade-in");
    assert("wave"@.len() != "fade-in"@.len());
    reveal_strlit("fade-out");
    assert("wave"@.len() != "fade-out"@.len());
    reveal_strlit("fade-in-out");
    assert("wave"@.len() != "fade-in-out"@.len());
    reveal_strlit("slide-in-top");
    assert("wave"@.len() != "slide-in-top"@.len());
    reveal_strlit("slide-in-bottom");
    assert("wave"@.len() != "slide-in-bottom"@.len());
    reveal_strlit("slide-in-left");
    assert("wave"@.len() != "slide-in-left"@.len());
    reveal_strlit("slide-in-right");
    assert("wave"@.len() != "slide-in-right"@.len());
    reveal_strlit("scale-up");
    assert("wave"@.len() != "scale-up"@.len());
    reveal_strlit("scale-down");
    assert("wave"@.len() != "scale-down"@.len());
    reveal_strlit("pulse");
    assert("wave"@.len() != "pulse"@.len());
    reveal_strlit("bounce-in");
    assert("wave"@.len() != "bounce-in"@.len());
    reveal_strlit("bounce-out");
    assert("wave"@.len() != "bounce-out"@.len());
    reveal_strlit("typewriter");
    assert("wave"@.len() != "typewriter"@.len());
    reveal_strlit("typewriter-reverse");
    assert("wave"@.len() != "typewriter-reverse"@.len());
}

proof fn lemma_named_15()
    ensures
        effect_named("jello"@) == Some(EffectKind::Jello),
{
    reveal_strlit("jello");
    reveal_strlit("fade-in");
    assert("jello"@.len() != "fade-in"@.len());
    reveal_strlit("fade-out");
    assert("jello"@.len() != "fade-out"@.len());
    reveal_strlit("fade-in-out");
    assert("jello"@.len() != "fade-in-out"@.len());
    reveal_strlit("slide-in-top");
    assert("jello"@.len() != "slide-in-top"@.len());
    reveal_strlit("slide-in-bottom");
    assert("jello"@.len() != "slide-in-bottom"@.len());
    reveal_strlit("slide-in-left");
    assert("jello"@.len() != "slide-in-left"@.len());
    reveal_strlit("slide-in-right");
    assert("jello"@.len() != "slide-in-right"@.len());
    reveal_strlit("scale-up");
    assert("jello"@.len() != "scale-up"@.len());
    reveal_strlit("scale-down");
    assert("jello"@.len() != "scale-down"@.len());
    reveal_strlit("pulse");
    assert("jello"@[0] != "pulse"@[0]);
    reveal_strlit("bounce-in");
    assert("jello"@.len() != "bounce-in"@.len());
    reveal_strlit("bounce-out");
    assert("jello"@.len() != "bounce-out"@.len());
    reveal_strlit("typewriter");
    assert("jello"@.len() != "typewriter"@.len());
    reveal_strlit("typewriter-reverse");
    assert("jello"@.len() != "typewriter-reverse"@.len());
    reveal_strlit("wave");
    assert("jello"@.len() != "wave"@.len());
}

proof fn lemma_named_16()
    ensures
        effect_named("color-cycle"@) == Some(EffectKind::ColorCycle),
{
    reveal_strlit("color-cycle");
    reveal_strlit("fade-in");
    assert("color-cycle"@.len() != "fade-in"@.len());
    reveal_strlit("fade-out");
    assert("color-cycle"@.len() != "fade-out"@.len());
    reveal_strlit("fade-in-out");
    assert("color-cycle"@[0] != "fade-in-out"@[0]);
    reveal_strlit("slide-in-top");
    assert("color-cycle"@.len() != "slide-in-top"@.len());
    reveal_strlit("slide-in-bottom");
    assert("color-cycle"@.len() != "slide-in-bottom"@.len());
    reveal_strlit("slide-in-left");
    assert("color-cycle"@.len() != "slide-in-left"@.len());
    reveal_strlit("slide-in-right");
    assert("color-cycle"@.len() != "slide-in-right"@.len());
    reveal_strlit("scale-up");
    assert("color-cycle"@.len() != "scale-up"@.len());
    reveal_strlit("scale-down");
    assert("color-cycle"@.len() != "scale-down"@.len());
    reveal_strlit("pulse");
    assert("color-cycle"@.len() != "pulse"@.len());
    reveal_strlit("bounce-in");
    assert("color-cycle"@.len() != "bounce-in"@.len());
    reveal_strlit("bounce-out");
    assert("color-cycle"@.len() != "bounce-out"@.len());
    reveal_strlit("typewriter");
    assert("color-cycle"@.len() != "typewriter"@.len());
    reveal_strlit("typewriter-reverse");
    assert("color-cycle"@.len() != "typewriter-reverse"@.len());
    reveal_strlit("wave");
    assert("color-cycle"@.len() != "wave"@.len());
    reveal_strlit("jello");
    assert("color-cycle"@.len() != "jello"@.len());
}

proof fn lemma_named_17()
    ensures
        effect_named("rainbow"@) == Some(EffectKind::Rainbow),
{
    reveal_strlit("rainbow");
    reveal_strlit("fade-in");
    assert("rainbow"@[0] != "fade-in"@[0]);
    reveal_strlit("fade-out");
    assert("rainbow"@.len() != "fade-out"@.len());
    reveal_strlit("fade-in-out");
    assert("rainbow"@.len() != "fade-in-out"@.len());
    reveal_strlit("slide-in-top");
    assert("rainbow"@.len() != "slide-in-top"@.len());
    reveal_strlit("slide-in-bottom");
    assert("rainbow"@.len() != "slide-in-bottom"@.len());
    reveal_strlit("slide-in-left");
    assert("rainbow"@.len() != "slide-in-left"@.len());
    reveal_strlit("slide-in-right");
    assert("rainbow"@.len() != "slide-in-right"@.len());
    reveal_strlit("scale-up");
    assert("rainbow"@.len() != "scale-up"@.len());
    reveal_strlit("scale-down");
    assert("rainbow"@.len() != "scale-down"@.len());
    reveal_strlit("pulse");
    assert("rainbow"@.len() != "pulse"@.len());
    reveal_strlit("bounce-in");
    assert("rainbow"@.len() != "bounce-in"@.len());
    reveal_strlit("bounce-out");
    assert("rainbow"@.len() != "bounce-out"@.len());
    reveal_strlit("typewriter");
    assert("rainbow"@.len() != "typewriter"@.len());
    reveal_strlit("typewriter-reverse");
    assert("rainbow"@.len() != "typewriter-reverse"@.len());
    reveal_strlit("wave");
    assert("rainbow"@.len() != "wave"@.len());
    reveal_strlit("jello");
    assert("rainbow"@.len() != "jello"@.len());
    reveal_strlit("color-cycle");
    assert("rainbow"@.len() != "color-cycle"@.len());
}

proof fn lemma_named_18()
    ensures
        effect_named("gradient-flow"@) == Some(EffectKind::GradientFlow),
{
    reveal_strlit("gradient-flow");
    reveal_strlit("fade-in");
    assert("gradient-flow"@.len() != "fade-in"@.len());
    reveal_strlit("fade-out");
    assert("gradient-flow"@.len() != "fade-out"@.len());
    reveal_strlit("fade-in-out");
    assert("gradient-flow"@.len() != "fade-in-out"@.len());
    reveal_strlit("slide-in-top");
    assert("gradient-flow"@.len() != "slide-in-top"@.len());
    reveal_strlit("slide-in-bottom");
    assert("gradient-flow"@.len() != "slide-in-bottom"@.len());
    reveal_strlit("slide-in-left");
    assert("gradient-flow"@[0] != "slide-in-left"@[0]);
    reveal_strlit("slide-in-right");
    assert("gradient-flow"@.len() != "slide-in-right"@.len());
    reveal_strlit("scale-up");
    assert("gradient-flow"@.len() != "scale-up"@.len());
    reveal_strlit("scale-down");
    assert("gradient-flow"@.len() != "scale-down"@.len());
    reveal_strlit("pulse");
    assert("gradient-flow"@.len() != "pulse"@.len());
    reveal_strlit("bounce-in");
    assert("gradient-flow"@.len() != "bounce-in"@.len());
    reveal_strlit("bounce-out");
    assert("gradient-flow"@.len() != "bounce-out"@.len());
    reveal_strlit("typewriter");
    assert("gradient-flow"@.len() != "typewriter"@.len());
    reveal_strlit("typewriter-reverse");
    assert("gradient-flow"@.len() != "typewriter-reverse"@.len());
    reveal_strlit("wave");
    assert("gradient-flow"@.len() != "wave"@.len());
    reveal_strlit("jello");
    assert("gradient-flow"@.len() != "jello"@.len());
    reveal_strlit("color-cycle");
    assert("gradient-flow"@.len() != "color-cycle"@.len());
    reveal_strlit("rainbow");
    assert("gradient-flow"@.len() != "rainbow"@.len());
}

proof fn lemma_named_19()
    ensures
        effect_named("rotate-in"@) == Some(EffectKind::RotateIn),
{
    reveal_strlit("rotate-in");
    reveal_strlit("fade-in");
    assert("rotate-in"@.len() != "fade-in"@.len());
    reveal_strlit("fade-out");
    assert("rotate-in"@.len() != "fade-out"@.len());
    reveal_strlit("fade-in-out");
    assert("rotate-in"@.len() != "fade-in-out"@.len());
    reveal_strlit("slide-in-top");
    assert("rotate-in"@.len() != "slide-in-top"@.len());
    reveal_strlit("slide-in-bottom");
    assert("rotate-in"@.len() != "slide-in-bottom"@.len());
    reveal_strlit("slide-in-left");
    assert("rotate-in"@.len() != "slide-in-left"@.len());
    reveal_strlit("slide-in-right");
    assert("rotate-in"@.len() != "slide-in-right"@.len());
    reveal_strlit("scale-up");
    assert("rotate-in"@.len() != "scale-up"@.len());
    reveal_strlit("scale-down");
    assert("rotate-in"@.len() != "scale-down"@.len());
    reveal_strlit("pulse");
    assert("rotate-in"@.len() != "pulse"@.len());
    reveal_strlit("bounce-in");
    assert("rotate-in"@[0] != "bounce-in"@[0]);
    reveal_strlit("bounce-out");
    assert("rotate-in"@.len() != "bounce-out"@.len());
    reveal_strlit("typewriter");
    assert("rotate-in"@.len() != "typewriter"@.len());
    reveal_strlit("typewriter-reverse");
    assert("rotate-in"@.len() != "typewriter-reverse"@.len());
    reveal_strlit("wave");
    assert("rotate-in"@.len() != "wave"@.len());
    reveal_strlit("jello");
    assert("rotate-in"@.len() != "jello"@.len());
    reveal_strlit("color-cycle");
    assert("rotate-in"@.len() != "color-cycle"@.len());
    reveal_strlit("rainbow");
    assert("rotate-in"@.len() != "rainbow"@.len());
    reveal_strlit("gradient-flow");
    assert("rotate-in"@.len() != "gradient-flow"@.len());
}

proof fn lemma_named_20()
    ensures
        effect_named("rotate-out"@) == Some(EffectKind::RotateOut),
{
    reveal_strlit("rotate-out");
    reveal_strlit("fade-in");
    assert("rotate-out"@.len() != "fade-in"@.len());
    reveal_strlit("fade-out");
    assert("rotate-out"@.len() != "fade-out"@.len());
    reveal_strlit("fade-in-out");
    assert("rotate-out"@.len() != "fade-in-out"@.len());
    reveal_strlit("slide-in-top");
    assert("rotate-out"@.len() != "slide-in-top"@.len());
    reveal_strlit("slide-in-bottom");
    assert("rotate-out"@.len() != "slide-in-bottom"@.len());
    reveal_strlit("slide-in-left");
    assert("rotate-out"@.len() != "slide-in-left"@.len());
    reveal_strlit("slide-in-right");
    assert("rotate-out"@.len() != "slide-in-right"@.len());
    reveal_strlit("scale-up");
    assert("rotate-out"@.len() != "scale-up"@.len());
    reveal_strlit("scale-down");
    assert("rotate-out"@[0] != "scale-down"@[0]);
    reveal_strlit("pulse");
    assert("rotate-out"@.len() != "pulse"@.len());
    reveal_strlit("bounce-in");
    assert("rotate-out"@.len() != "bounce-in"@.len());
    reveal_strlit("bounce-out");
    assert("rotate-out"@[0] != "bounce-out"@[0]);
    reveal_strlit("typewriter");
    assert("rotate-out"@[0] != "typewriter"@[0]);
    reveal_strlit("typewriter-reverse");
    assert("rotate-out"@.len() != "typewriter-reverse"@.len());
    reveal_strlit("wave");
    assert("rotate-out"@.len() != "wave"@.len());
    reveal_strlit("jello");
    assert("rotate-out"@.len() != "jello"@.len());
    reveal_strlit("color-cycle");
    assert("rotate-out"@.len() != "color-cycle"@.len());
    reveal_strlit("rainbow");
    assert("rotate-out"@.len() != "rainbow"@.len());
    reveal_strlit("gradient-flow");
    assert("rotate-out"@.len() != "gradient-flow"@.len());
    reveal_strlit("rotate-in");
    assert("rotate-out"@.len() != "rotate-in"@.len());
}

proof fn lemma_named_21()
    ensures
        effect_named("shake"@) == Some(EffectKind::Shake),
{
    reveal_strlit("shake");
    reveal_strlit("fade-in");
    assert("shake"@.len() != "fade-in"@.len());
    reveal_strlit("fade-out");
    assert("shake"@.len() != "fade-out"@.len());
    reveal_strlit("fade-in-out");
    assert("shake"@.len() != "fade-in-out"@.len());
    reveal_strlit("slide-in-top");
    assert("shake"@.len() != "slide-in-top"@.len());
    reveal_strlit("slide-in-bottom");
    assert("shake"@.len() != "slide-in-bottom"@.len());
    reveal_strlit("slide-in-left");
    assert("shake"@.len() != "slide-in-left"@.len());
    reveal_strlit("slide-in-right");
    assert("shake"@.len() != "slide-in-right"@.len());
    reveal_strlit("scale-up");
    assert("shake"@.len() != "scale-up"@.len());
    reveal_strlit("scale-down");
    assert("shake"@.len() != "scale-down"@.len());
    reveal_strlit("pulse");
    assert("shake"@[0] != "pulse"@[0]);
    reveal_strlit("bounce-in");
    assert("shake"@.len() != "bounce-in"@.len());
    reveal_strlit("bounce-out");
    assert("shake"@.len() != "bounce-out"@.len());
    reveal_strlit("typewriter");
    assert("shake"@.len() != "typewriter"@.len());
    reveal_strlit("typewriter-reverse");
    assert("shake"@.len() != "typewriter-reverse"@.len());
    reveal_strlit("wave");
    assert("shake"@.len() != "wave"@.len());
    reveal_strlit("jello");
    assert("shake"@[0] != "jello"@[0]);
    reveal_strlit("color-cycle");
    assert("shake"@.len() != "color-cycle"@.len());
    reveal_strlit("rainbow");
    assert("shake"@.len() != "rainbow"@.len());
    reveal_strlit("gradient-flow");
    assert("shake"@.len() != "gradient-flow"@.len());
    reveal_strlit("rotate-in");
    assert("shake"@.len() != "rotate-in"@.len());
    reveal_strlit("rotate-out");
    assert("shake"@.len() != "rotate-out"@.len());
}

proof fn lemma_named_22()
    ensures
        effect_named("wobble"@) == Some(EffectKind::Wobble),
{
    reveal_strlit("wobble");
    reveal_strlit("fade-in");
    assert("wobble"@.len() != "fade-in"@.len());
    reveal_strlit("fade-out");
    assert("wobble"@.len() != "fade-out"@.len());
    reveal_strlit("fade-in-out");
    assert("wobble"@.len() != "fade-in-out"@.len());
    reveal_strlit("slide-in-top");
    assert("wobble"@.len() != "slide-in-top"@.len());
    reveal_strlit("slide-in-bottom");
    assert("wobble"@.len() != "slide-in-bottom"@.len());
    reveal_strlit("slide-in-left");
    assert("wobble"@.len() != "slide-in-left"@.len());
    reveal_strlit("slide-in-right");
    assert("wobble"@.len() != "slide-in-right"@.len());
    reveal_strlit("scale-up");
    assert("wobble"@.len() != "scale-up"@.len());
    reveal_strlit("scale-down");
    assert("wobble"@.len() != "scale-down"@.len());
    reveal_strlit("pulse");
    assert("wobble"@.len() != "pulse"@.len());
    reveal_strlit("bounce-in");
    assert("wobble"@.len() != "bounce-in"@.len());
    reveal_strlit("bounce-out");
    assert("wobble"@.len() != "bounce-out"@.len());
    reveal_strlit("typewriter");
    assert("wobble"@.len() != "typewriter"@.len());
    reveal_strlit("typewriter-reverse");
    assert("wobble"@.len() != "typewriter-reverse"@.len());
    reveal_strlit("wave");
    assert("wobble"@.len() != "wave"@.len());
    reveal_strlit("jello");
    assert("wobble"@.len() != "jello"@.len());
    reveal_strlit("color-cycle");
    assert("wobble"@.len() != "color-cycle"@.len());
    reveal_strlit("rainbow");
    assert("wobble"@.len() != "rainbow"@.len());
    reveal_strlit("gradient-flow");
    assert("wobble"@.len() != "gradient-flow"@.len());
    reveal_strlit("rotate-in");
    assert("wobble"@.len() != "rotate-in"@.len());
    reveal_strlit("rotate-out");
    assert("wobble"@.len() != "rotate-out"@.len());
    reveal_strlit("shake");
    assert("wobble"@.len() != "shake"@.len());
}

proof fn lemma_named_23()
    ensures
        effect_named("vibrate"@) == Some(EffectKind::Vibrate),
{
    reveal_strlit("vibrate");
    reveal_strlit("fade-in");
    assert("vibrate"@[0] != "fade-in"@[0]);
    reveal_strlit("fade-out");
    assert("vibrate"@.len() != "fade-out"@.len());
    reveal_strlit("fade-in-out");
    assert("vibrate"@.len() != "fade-in-out"@.len());
    reveal_strlit("slide-in-top");
    assert("vibrate"@.len() != "slide-in-top"@.len());
    reveal_strlit("slide-in-bottom");
    assert("vibrate"@.len() != "slide-in-bottom"@.len());
    reveal_strlit("slide-in-left");
    assert("vibrate"@.len() != "slide-in-left"@.len());
    reveal_strlit("slide-in-right");
    assert("vibrate"@.len() != "slide-in-right"@.len());
    reveal_strlit("scale-up");
    assert("vibrate"@.len() != "scale-up"@.len());
    reveal_strlit("scale-down");
    assert("vibrate"@.len() != "scale-down"@.len());
    reveal_strlit("pulse");
    assert("vibrate"@.len() != "pulse"@.len());
    reveal_strlit("bounce-in");
    assert("vibrate"@.len() != "bounce-in"@.len());
    reveal_strlit("bounce-out");
    assert("vibrate"@.len() != "bounce-out"@.len());
    reveal_strlit("typewriter");
    assert("vibrate"@.len() != "typewriter"@.len());
    reveal_strlit("typewriter-reverse");
    assert("vibrate"@.len() != "typewriter-reverse"@.len());
    reveal_strlit("wave");
    assert("vibrate"@.len() != "wave"@.len());
    reveal_strlit("jello");
    assert("vibrate"@.len() != "jello"@.len());
    reveal_strlit("color-cycle");
    assert("vibrate"@.len() != "color-cycle"@.len());
    reveal_strlit("rainbow");
    assert("vibrate"@[0] != "rainbow"@[0]);
    reveal_strlit("gradient-flow");
    assert("vibrate"@.len() != "gradient-flow"@.len());
    reveal_strlit("rotate-in");
    assert("vibrate"@.len() != "rotate-in"@.len());
    reveal_strlit("rotate-out");
    assert("vibrate"@.len() != "rotate-out"@.len());
    reveal_strlit("shake");
    assert("vibrate"@.len() != "shake"@.len());
    reveal_strlit("wobble");
    assert("vibrate"@.len() != "wobble"@.len());
}

proof fn lemma_named_24()
    ensures
        effect_named("heartbeat"@) == Some(EffectKind::Heartbeat),
{
    reveal_strlit("heartbeat");
    reveal_strlit("fade-in");
    assert("heartbeat"@.len() != "fade-in"@.len());
    reveal_strlit("fade-out");
    assert("heartbeat"@.len() != "fade-out"@.len());
    reveal_strlit("fade-in-out");
    assert("heartbeat"@.len() != "fade-in-out"@.len());
    reveal_strlit("slide-in-top");
    assert("heartbeat"@.len() != "slide-in-top"@.len());
    reveal_strlit("slide-in-bottom");
    assert("heartbeat"@.len() != "slide-in-bottom"@.len());
    reveal_strlit("slide-in-left");
    assert("heartbeat"@.len() != "slide-in-left"@.len());
    reveal_strlit("slide-in-right");
    assert("heartbeat"@.len() != "slide-in-right"@.len());
    reveal_strlit("scale-up");
    assert("heartbeat"@.len() != "scale-up"@.len());
    reveal_strlit("scale-down");
    assert("heartbeat"@.len() != "scale-down"@.len());
    reveal_strlit("pulse");
    assert("heartbeat"@.len() != "pulse"@.len());
    reveal_strlit("bounce-in");
    assert("heartbeat"@[0] != "bounce-in"@[0]);
    reveal_strlit("bounce-out");
    assert("heartbeat"@.len() != "bounce-out"@.len());
    reveal_strlit("typewriter");
    assert("heartbeat"@.len() != "typewriter"@.len());
    reveal_strlit("typewriter-reverse");
    assert("heartbeat"@.len() != "typewriter-reverse"@.len());
    reveal_strlit("wave");
    assert("heartbeat"@.len() != "wave"@.len());
    reveal_strlit("jello");
    assert("heartbeat"@.len() != "jello"@.len());
    reveal_strlit("color-cycle");
    assert("heartbeat"@.len() != "color-cycle"@.len());
    reveal_strlit("rainbow");
    assert("heartbeat"@.len() != "rainbow"@.len());
    reveal_strlit("gradient-flow");
    assert("heartbeat"@.len() != "gradient-flow"@.len());
    reveal_strlit("rotate-in");
    assert("heartbeat"@[0] != "rotate-in"@[0]);
    reveal_strlit("rotate-out");
    assert("heartbeat"@.len() != "rotate-out"@.len());
    reveal_strlit("shake");
    assert("heartbeat"@.len() != "shake"@.len());
    reveal_strlit("wobble");
    assert("heartbeat"@.len() != "wobble"@.len());
    reveal_strlit("vibrate");
    assert("heartbeat"@.len() != "vibrate"@.len());
}

proof fn lemma_named_25()
    ensures
        effect_named("flip-horizontal"@) == Some(EffectKind::FlipHorizontal),
{
    reveal_strlit("flip-horizontal");
    reveal_strlit("fade-in");
    assert("flip-horizontal"@.len() != "fade-in"@.len());
    reveal_strlit("fade-out");
    assert("flip-horizontal"@.len() != "fade-out"@.len());
    reveal_strlit("fade-in-out");
    assert("flip-horizontal"@.len() != "fade-in-out"@.len());
    reveal_strlit("slide-in-top");
    assert("flip-horizontal"@.len() != "slide-in-top"@.len());
    reveal_strlit("slide-in-bottom");
    assert("flip-horizontal"@[0] != "slide-in-bottom"@[0]);
    reveal_strlit("slide-in-left");
    assert("flip-horizontal"@.len() != "slide-in-left"@.len());
    reveal_strlit("slide-in-right");
    assert("flip-horizontal"@.len() != "slide-in-right"@.len());
    reveal_strlit("scale-up");
    assert("flip-horizontal"@.len() != "scale-up"@.len());
    reveal_strlit("scale-down");
    assert("flip-horizontal"@.len() != "scale-down"@.len());
    reveal_strlit("pulse");
    assert("flip-horizontal"@.len() != "pulse"@.len());
    reveal_strlit("bounce-in");
    assert("flip-horizontal"@.len() != "bounce-in"@.len());
    reveal_strlit("bounce-out");
    assert("flip-horizontal"@.len() != "bounce-out"@.len());
    reveal_strlit("typewriter");
    assert("flip-horizontal"@.len() != "typewriter"@.len());
    reveal_strlit("typewriter-reverse");
    assert("flip-horizontal"@.len() != "typewriter-reverse"@.len());
    reveal_strlit("wave");
    assert("flip-horizontal"@.len() != "wave"@.len());
    reveal_strlit("jello");
    assert("flip-horizontal"@.len() != "jello"@.len());
    reveal_strlit("color-cycle");
    assert("flip-horizontal"@.len() != "color-cycle"@.len());
    reveal_strlit("rainbow");
    assert("flip-horizontal"@.len() != "rainbow"@.len());
    reveal_strlit("gradient-flow");
    assert("flip-horizontal"@.len() != "gradient-flow"@.len());
    reveal_strlit("rotate-in");
    assert("flip-horizontal"@.len() != "rotate-in"@.len());
    reveal_strlit("rotate-out");
    assert("flip-horizontal"@.len() != "rotate-out"@.len());
    reveal_strlit("shake");
    assert("flip-horizontal"@.len() != "shake"@.len());
    reveal_strlit("wobble");
    assert("flip-horizontal"@.len() != "wobble"@.len());
    reveal_strlit("vibrate");
    assert("flip-horizontal"@.len() != "vibrate"@.len());
    reveal_strlit("heartbeat");
    assert("flip-horizontal"@.len() != "heartbeat"@.len());
}

proof fn lemma_named_26()
    ensures
        effect_named("flip-vertical"@) == Some(EffectKind::FlipVertical),
{
    reveal_strlit("flip-vertical");
    reveal_strlit("fade-in");
    assert("flip-vertical"@.len() != "fade-in"@.len());
    reveal_strlit("fade-out");
    assert("flip-vertical"@.len() != "fade-out"@.len());
    reveal_strlit("fade-in-out");
    assert("flip-vertical"@.len() != "fade-in-out"@.len());
    reveal_strlit("slide-in-top");
    assert("flip-vertical"@.len() != "slide-in-top"@.len());
    reveal_strlit("slide-in-bottom");
    assert("flip-vertical"@.len() != "slide-in-bottom"@.len());
    reveal_strlit("slide-in-left");
    assert("flip-vertical"@[0] != "slide-in-left"@[0]);
    reveal_strlit("slide-in-right");
    assert("flip-vertical"@.len() != "slide-in-right"@.len());
    reveal_strlit("scale-up");
    assert("flip-vertical"@.len() != "scale-up"@.len());
    reveal_strlit("scale-down");
    assert("flip-vertical"@.len() != "scale-down"@.len());
    reveal_strlit("pulse");
    assert("flip-vertical"@.len() != "pulse"@.len());
    reveal_strlit("bounce-in");
    assert("flip-vertical"@.len() != "bounce-in"@.len());
    reveal_strlit("bounce-out");
    assert("flip-vertical"@.len() != "bounce-out"@.len());
    reveal_strlit("typewriter");
    assert("flip-vertical"@.len() != "typewriter"@.len());
    reveal_strlit("typewriter-reverse");
    assert("flip-vertical"@.len() != "typewriter-reverse"@.len());
    reveal_strlit("wave");
    assert("flip-vertical"@.len() != "wave"@.len());
    reveal_strlit("jello");
    assert("flip-vertical"@.len() != "jello"@.len());
    reveal_strlit("color-cycle");
    assert("flip-vertical"@.len() != "color-cycle"@.len());
    reveal_strlit("rainbow");
    assert("flip-vertical"@.len() != "rainbow"@.len());
    reveal_strlit("gradient-flow");
    assert("flip-vertical"@[0] != "gradient-flow"@[0]);
    reveal_strlit("rotate-in");
    assert("flip-vertical"@.len() != "rotate-in"@.len());
    reveal_strlit("rotate-out");
    assert("flip-vertical"@.len() != "rotate-out"@.len());
    reveal_strlit("shake");
    assert("flip-vertical"@.len() != "shake"@.len());
    reveal_strlit("wobble");
    assert("flip-vertical"@.len() != "wobble"@.len());
    reveal_strlit("vibrate");
    assert("flip-vertical"@.len() != "vibrate"@.len());
    reveal_strlit("heartbeat");
    assert("flip-vertical"@.len() != "heartbeat"@.len());
    reveal_strlit("flip-horizontal");
    assert("flip-vertical"@.len() != "flip-horizontal"@.len());
}

proof fn lemma_named_27()
    ensures
        effect_named("swing"@) == Some(EffectKind::Swing),
{
    reveal_strlit("swing");
    reveal_strlit("fade-in");
    assert("swing"@.len() != "fade-in"@.len());
    reveal_strlit("fade-out");
    assert("swing"@.len() != "fade-out"@.len());
    reveal_strlit("fade-in-out");
    assert("swing"@.len() != "fade-in-out"@.len());
    reveal_strlit("slide-in-top");
    assert("swing"@.len() != "slide-in-top"@.len());
    reveal_strlit("slide-in-bottom");
    assert("swing"@.len() != "slide-in-bottom"@.len());
    reveal_strlit("slide-in-left");
    assert("swing"@.len() != "slide-in-left"@.len());
    reveal_strlit("slide-in-right");
    assert("swing"@.len() != "slide-in-right"@.len());
    reveal_strlit("scale-up");
    assert("swing"@.len() != "scale-up"@.len());
    reveal_strlit("scale-down");
    assert("swing"@.len() != "scale-down"@.len());
    reveal_strlit("pulse");
    assert("swing"@[0] != "pulse"@[0]);
    reveal_strlit("bounce-in");
    assert("swing"@.len() != "bounce-in"@.len());
    reveal_strlit("bounce-out");
    assert("swing"@.len() != "bounce-out"@.len());
    reveal_strlit("typewriter");
    assert("swing"@.len() != "typewriter"@.len());
    reveal_strlit("typewriter-reverse");
    assert("swing"@.len() != "typewriter-reverse"@.len());
    reveal_strlit("wave");
    assert("swing"@.len() != "wave"@.len());
    reveal_strlit("jello");
    assert("swing"@[0] != "jello"@[0]);
    reveal_strlit("color-cycle");
    assert("swing"@.len() != "color-cycle"@.len());
    reveal_strlit("rainbow");
    assert("swing"@.len() != "rainbow"@.len());
    reveal_strlit("gradient-flow");
    assert("swing"@.len() != "gradient-flow"@.len());
    reveal_strlit("rotate-in");
    assert("swing"@.len() != "rotate-in"@.len());
    reveal_strlit("rotate-out");
    assert("swing"@.len() != "rotate-out"@.len());
    reveal_strlit("shake");
    assert("swing"@[1] != "shake"@[1]);
    reveal_strlit("wobble");
    assert("swing"@.len() != "wobble"@.len());
    reveal_strlit("vibrate");
    assert("swing"@.len() != "vibrate"@.len());
    reveal_strlit("heartbeat");
    assert("swing"@.len() != "heartbeat"@.len());
    reveal_strlit("flip-horizontal");
    assert("swing"@.len() != "flip-horizontal"@.len());
    reveal_strlit("flip-vertical");
    assert("swing"@.len() != "flip-vertical"@.len());
}

proof fn lemma_named_28()
    ensures
        effect_named("sway"@) == Some(EffectKind::Sway),
{
    reveal_strlit("sway");
    reveal_strlit("fade-in");
    assert("sway"@.len() != "fade-in"@.len());
    reveal_strlit("fade-out");
    assert("sway"@.len() != "fade-out"@.len());
    reveal_strlit("fade-in-out");
    assert("sway"@.len() != "fade-in-out"@.len());
    reveal_strlit("slide-in-top");
    assert("sway"@.len() != "slide-in-top"@.len());
    reveal_strlit("slide-in-bottom");
    assert("sway"@.len() != "slide-in-bottom"@.len());
    reveal_strlit("slide-in-left");
    assert("sway"@.len() != "slide-in-left"@.len());
    reveal_strlit("slide-in-right");
    assert("sway"@.len() != "slide-in-right"@.len());
    reveal_strlit("scale-up");
    assert("sway"@.len() != "scale-up"@.len());
    reveal_strlit("scale-down");
    assert("sway"@.len() != "scale-down"@.len());
    reveal_strlit("pulse");
    assert("sway"@.len() != "pulse"@.len());
    reveal_strlit("bounce-in");
    assert("sway"@.len() != "bounce-in"@.len());
    reveal_strlit("bounce-out");
    assert("sway"@.len() != "bounce-out"@.len());
    reveal_strlit("typewriter");
    assert("sway"@.len() != "typewriter"@.len());
    reveal_strlit("typewriter-reverse");
    assert("sway"@.len() != "typewriter-reverse"@.len());
    reveal_strlit("wave");
    assert("sway"@[0] != "wave"@[0]);
    reveal_strlit("jello");
    assert("sway"@.len() != "jello"@.len());
    reveal_strlit("color-cycle");
    assert("sway"@.len() != "color-cycle"@.len());
    reveal_strlit("rainbow");
    assert("sway"@.len() != "rainbow"@.len());
    reveal_strlit("gradient-flow");
    assert("sway"@.len() != "gradient-flow"@.len());
    reveal_strlit("rotate-in");
    assert("sway"@.len() != "rotate-in"@.len());
    reveal_strlit("rotate-out");
    assert("sway"@.len() != "rotate-out"@.len());
    reveal_strlit("shake");
    assert("sway"@.len() != "shake"@.len());
    reveal_strlit("wobble");
    assert("sway"@.len() != "wobble"@.len());
    reveal_strlit("vibrate");
    assert("sway"@.len() != "vibrate"@.len());
    reveal_strlit("heartbeat");
    assert("sway"@.len() != "heartbeat"@.len());
    reveal_strlit("flip-horizontal");
    assert("sway"@.len() != "flip-horizontal"@.len());
    reveal_strlit("flip-vertical");
    assert("sway"@.len() != "flip-vertical"@.len());
    reveal_strlit("swing");
    assert("sway"@.len() != "swing"@.len());
}

proof fn lemma_named_29()
    ensures
        effect_named("roll-in"@) == Some(EffectKind::RollIn),
{
    reveal_strlit("roll-in");
    reveal_strlit("fade-in");
    assert("roll-in"@[0] != "fade-in"@[0]);
    reveal_strlit("fade-out");
    assert("roll-in"@.len() != "fade-out"@.len());
    reveal_strlit("fade-in-out");
    assert("roll-in"@.len() != "fade-in-out"@.len());
    reveal_strlit("slide-in-top");
    assert("roll-in"@.len() != "slide-in-top"@.len());
    reveal_strlit("slide-in-bottom");
    assert("roll-in"@.len() != "slide-in-bottom"@.len());
    reveal_strlit("slide-in-left");
    assert("roll-in"@.len() != "slide-in-left"@.len());
    reveal_strlit("slide-in-right");
    assert("roll-in"@.len() != "slide-in-right"@.len());
    reveal_strlit("scale-up");
    assert("roll-in"@.len() != "scale-up"@.len());
    reveal_strlit("scale-down");
    assert("roll-in"@.len() != "scale-down"@.len());
    reveal_strlit("pulse");
    assert("roll-in"@.len() != "pulse"@.len());
    reveal_strlit("bounce-in");
    assert("roll-in"@.len() != "bounce-in"@.len());
    reveal_strlit("bounce-out");
    assert("roll-in"@.len() != "bounce-out"@.len());
    reveal_strlit("typewriter");
    assert("roll-in"@.len() != "typewriter"@.len());
    reveal_strlit("typewriter-reverse");
    assert("roll-in"@.len() != "typewriter-reverse"@.len());
    reveal_strlit("wave");
    assert("roll-in"@.len() != "wave"@.len());
    reveal_strlit("jello");
    assert("roll-in"@.len() != "jello"@.len());
    reveal_strlit("color-cycle");
    assert("roll-in"@.len() != "color-cycle"@.len());
    reveal_strlit("rainbow");
    assert("roll-in"@[1] != "rainbow"@[1]);
    reveal_strlit("gradient-flow");
    assert("roll-in"@.len() != "gradient-flow"@.len());
    reveal_strlit("rotate-in");
    assert("roll-in"@.len() != "rotate-in"@.len());
    reveal_strlit("rotate-out");
    assert("roll-in"@.len() != "rotate-out"@.len());
    reveal_strlit("shake");
    assert("roll-in"@.len() != "shake"@.len());
    reveal_strlit("wobble");
    assert("roll-in"@.len() != "wobble"@.len());
    reveal_strlit("vibrate");
    assert("roll-in"@[0] != "vibrate"@[0]);
    reveal_strlit("heartbeat");
    assert("roll-in"@.len() != "heartbeat"@.len());
    reveal_strlit("flip-horizontal");
    assert("roll-in"@.len() != "flip-horizontal"@.len());
    reveal_strlit("flip-vertical");
    assert("roll-in"@.len() != "flip-vertical"@.len());
    reveal_strlit("swing");
    assert("roll-in"@.len() != "swing"@.len());
    reveal_strlit("sway");
    assert("roll-in"@.len() != "sway"@.len());
}

proof fn lemma_named_30()
    ensures
        effect_named("roll-out"@) == Some(EffectKind::RollOut),
{
    reveal_strlit("roll-out");
    reveal_strlit("fade-in");
    assert("roll-out"@.len() != "fade-in"@.len());
    reveal_strlit("fade-out");
    assert("roll-out"@[0] != "fade-out"@[0]);
    reveal_strlit("fade-in-out");
    assert("roll-out"@.len() != "fade-in-out"@.len());
    reveal_strlit("slide-in-top");
    assert("roll-out"@.len() != "slide-in-top"@.len());
    reveal_strlit("slide-in-bottom");
    assert("roll-out"@.len() != "slide-in-bottom"@.len());
    reveal_strlit("slide-in-left");
    assert("roll-out"@.len() != "slide-in-left"@.len());
    reveal_strlit("slide-in-right");
    assert("roll-out"@.len() != "slide-in-right"@.len());
    reveal_strlit("scale-up");
    assert("roll-out"@[0] != "scale-up"@[0]);
    reveal_strlit("scale-down");
    assert("roll-out"@.len() != "scale-down"@.len());
    reveal_strlit("pulse");
    assert("roll-out"@.len() != "pulse"@.len());
    reveal_strlit("bounce-in");
    assert("roll-out"@.len() != "bounce-in"@.len());
    reveal_strlit("bounce-out");
    assert("roll-out"@.len() != "bounce-out"@.len());
    reveal_strlit("typewriter");
    assert("roll-out"@.len() != "typewriter"@.len());
    reveal_strlit("typewriter-reverse");
    assert("roll-out"@.len() != "typewriter-reverse"@.len());
    reveal_strlit("wave");
    assert("roll-out"@.len() != "wave"@.len());
    reveal_strlit("jello");
    assert("roll-out"@.len() != "jello"@.len());
    reveal_strlit("color-cycle");
    assert("roll-out"@.len() != "color-cycle"@.len());
    reveal_strlit("rainbow");
    assert("roll-out"@.len() != "rainbow"@.len());
    reveal_strlit("gradient-flow");
    assert("roll-out"@.len() != "gradient-flow"@.len());
    reveal_strlit("rotate-in");
    assert("roll-out"@.len() != "rotate-in"@.len());
    reveal_strlit("rotate-out");
    assert("roll-out"@.len() != "rotate-out"@.len());
    reveal_strlit("shake");
    assert("roll-out"@.len() != "shake"@.len());
    reveal_strlit("wobble");
    assert("roll-out"@.len() != "wobble"@.len());
    reveal_strlit("vibrate");
    assert("roll-out"@.len() != "vibrate"@.len());
    reveal_strlit("heartbeat");
    assert("roll-out"@.len() != "heartbeat"@.len());
    reveal_strlit("flip-horizontal");
    assert("roll-out"@.len() != "flip-horizontal"@.len());
    reveal_strlit("flip-vertical");
    assert("roll-out"@.len() != "flip-vertical"@.len());
    reveal_strlit("swing");
    assert("roll-out"@.len() != "swing"@.len());
    reveal_strlit("sway");
    assert("roll-out"@.len() != "sway"@.len());
    reveal_strlit("roll-in");
    assert("roll-out"@.len() != "roll-in"@.len());
}

proof fn lemma_named_31()
    ensures
        effect_named("puff-in"@) == Some(EffectKind::PuffIn),
{
    reveal_strlit("puff-in");
    reveal_strlit("fade-in");
    assert("puff-in"@[0] != "fade-in"@[0]);
    reveal_strlit("fade-out");
    assert("puff-in"@.len() != "fade-out"@.len());
    reveal_strlit("fade-in-out");
    assert("puff-in"@.len() != "fade-in-out"@.len());
    reveal_strlit("slide-in-top");
    assert("puff-in"@.len() != "slide-in-top"@.len());
    reveal_strlit("slide-in-bottom");
    assert("puff-in"@.len() != "slide-in-bottom"@.len());
    reveal_strlit("slide-in-left");
    assert("puff-in"@.len() != "slide-in-left"@.len());
    reveal_strlit("slide-in-right");
    assert("puff-in"@.len() != "slide-in-right"@.len());
    reveal_strlit("scale-up");
    assert("puff-in"@.len() != "scale-up"@.len());
    reveal_strlit("scale-down");
    assert("puff-in"@.len() != "scale-down"@.len());
    reveal_strlit("pulse");
    assert("puff-in"@.len() != "pulse"@.len());
    reveal_strlit("bounce-in");
    assert("puff-in"@.len() != "bounce-in"@.len());
    reveal_strlit("bounce-out");
    assert("puff-in"@.len() != "bounce-out"@.len());
    reveal_strlit("typewriter");
    assert("puff-in"@.len() != "typewriter"@.len());
    reveal_strlit("typewriter-reverse");
    assert("puff-in"@.len() != "typewriter-reverse"@.len());
    reveal_strlit("wave");
    assert("puff-in"@.len() != "wave"@.len());
    reveal_strlit("jello");
    assert("puff-in"@.len() != "jello"@.len());
    reveal_strlit("color-cycle");
    assert("puff-in"@.len() != "color-cycle"@.len());
    reveal_strlit("rainbow");
    assert("puff-in"@[0] != "rainbow"@[0]);
    reveal_strlit("gradient-flow");
    assert("puff-in"@.len() != "gradient-flow"@.len());
    reveal_strlit("rotate-in");
    assert("puff-in"@.len() != "rotate-in"@.len());
    reveal_strlit("rotate-out");
    assert("puff-in"@.len() != "rotate-out"@.len());
    reveal_strlit("shake");
    assert("puff-in"@.len() != "shake"@.len());
    reveal_strlit("wobble");
    assert("puff-in"@.len() != "wobble"@.len());
    reveal_strlit("vibrate");
    assert("puff-in"@[0] != "vibrate"@[0]);
    reveal_strlit("heartbeat");
    assert("puff-in"@.len() != "heartbeat"@.len());
    reveal_strlit("flip-horizontal");
    assert("puff-in"@.len() != "flip-horizontal"@.len());
    reveal_strlit("flip-vertical");
    assert("puff-in"@.len() != "flip-vertical"@.len());
    reveal_strlit("swing");
    assert("puff-in"@.len() != "swing"@.len());
    reveal_strlit("sway");
    assert("puff-in"@.len() != "sway"@.len());
    reveal_strlit("roll-in");
    assert("puff-in"@[0] != "roll-in"@[0]);
    reveal_strlit("roll-out");
    assert("puff-in"@.len() != "roll-out"@.len());
}

proof fn lemma_named_32()
    ensures
        effect_named("puff-out"@) == Some(EffectKind::PuffOut),
{
    reveal_strlit("puff-out");
    reveal_strlit("fade-in");
    assert("puff-out"@.len() != "fade-in"@.len());
    reveal_strlit("fade-out");
    assert("puff-out"@[0] != "fade-out"@[0]);
    reveal_strlit("fade-in-out");
    assert("puff-out"@.len() != "fade-in-out"@.len());
    reveal_strlit("slide-in-top");
    assert("puff-out"@.len() != "slide-in-top"@.len());
    reveal_strlit("slide-in-bottom");
    assert("puff-out"@.len() != "slide-in-bottom"@.len());
    reveal_strlit("slide-in-left");
    assert("puff-out"@.len() != "slide-in-left"@.len());
    reveal_strlit("slide-in-right");
    assert("puff-out"@.len() != "slide-in-right"@.len());
    reveal_strlit("scale-up");
    assert("puff-out"@[0] != "scale-up"@[0]);
    reveal_strlit("scale-down");
    assert("puff-out"@.len() != "scale-down"@.len());
    reveal_strlit("pulse");
    assert("puff-out"@.len() != "pulse"@.len());
    reveal_strlit("bounce-in");
    assert("puff-out"@.len() != "bounce-in"@.len());
    reveal_strlit("bounce-out");
    assert("puff-out"@.len() != "bounce-out"@.len());
    reveal_strlit("typewriter");
    assert("puff-out"@.len() != "typewriter"@.len());
    reveal_strlit("typewriter-reverse");
    assert("puff-out"@.len() != "typewriter-reverse"@.len());
    reveal_strlit("wave");
    assert("puff-out"@.len() != "wave"@.len());
    reveal_strlit("jello");
    assert("puff-out"@.len() != "jello"@.len());
    reveal_strlit("color-cycle");
    assert("puff-out"@.len() != "color-cycle"@.len());
    reveal_strlit("rainbow");
    assert("puff-out"@.len() != "rainbow"@.len());
    reveal_strlit("gradient-flow");
    assert("puff-out"@.len() != "gradient-flow"@.len());
    reveal_strlit("rotate-in");
    assert("puff-out"@.len() != "rotate-in"@.len());
    reveal_strlit("rotate-out");
    assert("puff-out"@.len() != "rotate-out"@.len());
    reveal_strlit("shake");
    assert("puff-out"@.len() != "shake"@.len());
    reveal_strlit("wobble");
    assert("puff-out"@.len() != "wobble"@.len());
    reveal_strlit("vibrate");
    assert("puff-out"@.len() != "vibrate"@.len());
    reveal_strlit("heartbeat");
    assert("puff-out"@.len() != "heartbeat"@.len());
    reveal_strlit("flip-horizontal");
    assert("puff-out"@.len() != "flip-horizontal"@.len());
    reveal_strlit("flip-vertical");
    assert("puff-out"@.len() != "flip-vertical"@.len());
    reveal_strlit("swing");
    assert("puff-out"@.len() != "swing"@.len());
    reveal_strlit("sway");
    assert("puff-out"@.len() != "sway"@.len());
    reveal_strlit("roll-in");
    assert("puff-out"@.len() != "roll-in"@.len());
    reveal_strlit("roll-out");
    assert("puff-out"@[0] != "roll-out"@[0]);
    reveal_strlit("puff-in");
    assert("puff-out"@.len() != "puff-in"@.len());
}

proof fn lemma_named_33()
    ensures
        effect_named("slide-rotate-hor"@) == Some(EffectKind::SlideRotateHor),
{
    reveal_strlit("slide-rotate-hor");
    reveal_strlit("fade-in");
    assert("slide-rotate-hor"@.len() != "fade-in"@.len());
    reveal_strlit("fade-out");
    assert("slide-rotate-hor"@.len() != "fade-out"@.len());
    reveal_strlit("fade-in-out");
    assert("slide-rotate-hor"@.len() != "fade-in-out"@.len());
    reveal_strlit("slide-in-top");
    assert("slide-rotate-hor"@.len() != "slide-in-top"@.len());
    reveal_strlit("slide-in-bottom");
    assert("slide-rotate-hor"@.len() != "slide-in-bottom"@.len());
    reveal_strlit("slide-in-left");
    assert("slide-rotate-hor"@.len() != "slide-in-left"@.len());
    reveal_strlit("slide-in-right");
    assert("slide-rotate-hor"@.len() != "slide-in-right"@.len());
    reveal_strlit("scale-up");
    assert("slide-rotate-hor"@.len() != "scale-up"@.len());
    reveal_strlit("scale-down");
    assert("slide-rotate-hor"@.len() != "scale-down"@.len());
    reveal_strlit("pulse");
    assert("slide-rotate-hor"@.len() != "pulse"@.len());
    reveal_strlit("bounce-in");
    assert("slide-rotate-hor"@.len() != "bounce-in"@.len());
    reveal_strlit("bounce-out");
    assert("slide-rotate-hor"@.len() != "bounce-out"@.len());
    reveal_strlit("typewriter");
    assert("slide-rotate-hor"@.len() != "typewriter"@.len());
    reveal_strlit("typewriter-reverse");
    assert("slide-rotate-hor"@.len() != "typewriter-reverse"@.len());
    reveal_strlit("wave");
    assert("slide-rotate-hor"@.len() != "wave"@.len());
    reveal_strlit("jello");
    assert("slide-rotate-hor"@.len() != "jello"@.len());
    reveal_strlit("color-cycle");
    assert("slide-rotate-hor"@.len() != "color-cycle"@.len());
    reveal_strlit("rainbow");
    assert("slide-rotate-hor"@.len() != "rainbow"@.len());
    reveal_strlit("gradient-flow");
    assert("slide-rotate-hor"@.len() != "gradient-flow"@.len());
    reveal_strlit("rotate-in");
    assert("slide-rotate-hor"@.len() != "rotate-in"@.len());
    reveal_strlit("rotate-out");
    assert("slide-rotate-hor"@.len() != "rotate-out"@.len());
    reveal_strlit("shake");
    assert("slide-rotate-hor"@.len() != "shake"@.len());
    reveal_strlit("wobble");
    assert("slide-rotate-hor"@.len() != "wobble"@.len());
    reveal_strlit("vibrate");
    assert("slide-rotate-hor"@.len() != "vibrate"@.len());
    reveal_strlit("heartbeat");
    assert("slide-rotate-hor"@.len() != "heartbeat"@.len());
    reveal_strlit("flip-horizontal");
    assert("slide-rotate-hor"@.len() != "flip-horizontal"@.len());
    reveal_strlit("flip-vertical");
    assert("slide-rotate-hor"@.len() != "flip-vertical"@.len());
    reveal_strlit("swing");
    assert("slide-rotate-hor"@.len() != "swing"@.len());
    reveal_strlit("sway");
    assert("slide-rotate-hor"@.len() != "sway"@.len());
    reveal_strlit("roll-in");
    assert("slide-rotate-hor"@.len() != "roll-in"@.len());
    reveal_strlit("roll-out");
    assert("slide-rotate-hor"@.len() != "roll-out"@.len());
    reveal_strlit("puff-in");
    assert("slide-rotate-hor"@.len() != "puff-in"@.len());
    reveal_strlit("puff-out");
    assert("slide-rotate-hor"@.len() != "puff-out"@.len());
}

proof fn lemma_named_34()
    ensures
        effect_named("slide-rotate-ver"@) == Some(EffectKind::SlideRotateVer),
{
    reveal_strlit("slide-rotate-ver");
    reveal_strlit("fade-in");
    assert("slide-rotate-ver"@.len() != "fade-in"@.len());
    reveal_strlit("fade-out");
    assert("slide-rotate-ver"@.len() != "fade-out"@.len());
    reveal_strlit("fade-in-out");
    assert("slide-rotate-ver"@.len() != "fade-in-out"@.len());
    reveal_strlit("slide-in-top");
    assert("slide-rotate-ver"@.len() != "slide-in-top"@.len());
    reveal_strlit("slide-in-bottom");
    assert("slide-rotate-ver"@.len() != "slide-in-bottom"@.len());
    reveal_strlit("slide-in-left");
    assert("slide-rotate-ver"@.len() != "slide-in-left"@.len());
    reveal_strlit("slide-in-right");
    assert("slide-rotate-ver"@.len() != "slide-in-right"@.len());
    reveal_strlit("scale-up");
    assert("slide-rotate-ver"@.len() != "scale-up"@.len());
    reveal_strlit("scale-down");
    assert("slide-rotate-ver"@.len() != "scale-down"@.len());
    reveal_strlit("pulse");
    assert("slide-rotate-ver"@.len() != "pulse"@.len());
    reveal_strlit("bounce-in");
    assert("slide-rotate-ver"@.len() != "bounce-in"@.len());
    reveal_strlit("bounce-out");
    assert("slide-rotate-ver"@.len() != "bounce-out"@.len());
    reveal_strlit("typewriter");
    assert("slide-rotate-ver"@.len() != "typewriter"@.len());
    reveal_strlit("typewriter-reverse");
    assert("slide-rotate-ver"@.len() != "typewriter-reverse"@.len());
    reveal_strlit("wave");
    assert("slide-rotate-ver"@.len() != "wave"@.len());
    reveal_strlit("jello");
    assert("slide-rotate-ver"@.len() != "jello"@.len());
    reveal_strlit("color-cycle");
    assert("slide-rotate-ver"@.len() != "color-cycle"@.len());
    reveal_strlit("rainbow");
    assert("slide-rotate-ver"@.len() != "rainbow"@.len());
    reveal_strlit("gradient-flow");
    assert("slide-rotate-ver"@.len() != "gradient-flow"@.len());
    reveal_strlit("rotate-in");
    assert("slide-rotate-ver"@.len() != "rotate-in"@.len());
    reveal_strlit("rotate-out");
    assert("slide-rotate-ver"@.len() != "rotate-out"@.len());
    reveal_strlit("shake");
    assert("slide-rotate-ver"@.len() != "shake"@.len());
    reveal_strlit("wobble");
    assert("slide-rotate-ver"@.len() != "wobble"@.len());
    reveal_strlit("vibrate");
    assert("slide-rotate-ver"@.len() != "vibrate"@.len());
    reveal_strlit("heartbeat");
    assert("slide-rotate-ver"@.len() != "heartbeat"@.len());
    reveal_strlit("flip-horizontal");
    assert("slide-rotate-ver"@.len() != "flip-horizontal"@.len());
    reveal_strlit("flip-vertical");
    assert("slide-rotate-ver"@.len() != "flip-vertical"@.len());
    reveal_strlit("swing");
    assert("slide-rotate-ver"@.len() != "swing"@.len());
    reveal_strlit("sway");
    assert("slide-rotate-ver"@.len() != "sway"@.len());
    reveal_strlit("roll-in");
    assert("slide-rotate-ver"@.len() != "roll-in"@.len());
    reveal_strlit("roll-out");
    assert("slide-rotate-ver"@.len() != "roll-out"@.len());
    reveal_strlit("puff-in");
    assert("slide-rotate-ver"@.len() != "puff-in"@.len());
    reveal_strlit("puff-out");
    assert("slide-rotate-ver"@.len() != "puff-out"@.len());
    reveal_strlit("slide-rotate-hor");
    assert("slide-rotate-ver"@[13] != "slide-rotate-hor"@[13]);
}

proof fn lemma_named_35()
    ensures
        effect_named("flicker"@) == Some(EffectKind::Flicker),
{
    reveal_strlit("flicker");
    reveal_strlit("fade-in");
    assert("flicker"@[1] != "fade-in"@[1]);
    reveal_strlit("fade-out");
    assert("flicker"@.len() != "fade-out"@.len());
    reveal_strlit("fade-in-out");
    assert("flicker"@.len() != "fade-in-out"@.len());
    reveal_strlit("slide-in-top");
    assert("flicker"@.len() != "slide-in-top"@.len());
    reveal_strlit("slide-in-bottom");
    assert("flicker"@.len() != "slide-in-bottom"@.len());
    reveal_strlit("slide-in-left");
    assert("flicker"@.len() != "slide-in-left"@.len());
    reveal_strlit("slide-in-right");
    assert("flicker"@.len() != "slide-in-right"@.len());
    reveal_strlit("scale-up");
    assert("flicker"@.len() != "scale-up"@.len());
    reveal_strlit("scale-down");
    assert("flicker"@.len() != "scale-down"@.len());
    reveal_strlit("pulse");
    assert("flicker"@.len() != "pulse"@.len());
    reveal_strlit("bounce-in");
    assert("flicker"@.len() != "bounce-in"@.len());
    reveal_strlit("bounce-out");
    assert("flicker"@.len() != "bounce-out"@.len());
    reveal_strlit("typewriter");
    assert("flicker"@.len() != "typewriter"@.len());
    reveal_strlit("typewriter-reverse");
    assert("flicker"@.len() != "typewriter-reverse"@.len());
    reveal_strlit("wave");
    assert("flicker"@.len() != "wave"@.len());
    reveal_strlit("jello");
    assert("flicker"@.len() != "jello"@.len());
    reveal_strlit("color-cycle");
    assert("flicker"@.len() != "color-cycle"@.len());
    reveal_strlit("rainbow");
    assert("flicker"@[0] != "rainbow"@[0]);
    reveal_strlit("gradient-flow");
    assert("flicker"@.len() != "gradient-flow"@.len());
    reveal_strlit("rotate-in");
    assert("flicker"@.len() != "rotate-in"@.len());
    reveal_strlit("rotate-out");
    assert("flicker"@.len() != "rotate-out"@.len());
    reveal_strlit("shake");
    assert("flicker"@.len() != "shake"@.len());
    reveal_strlit("wobble");
    assert("flicker"@.len() != "wobble"@.len());
    reveal_strlit("vibrate");
    assert("flicker"@[0] != "vibrate"@[0]);
    reveal_strlit("heartbeat");
    assert("flicker"@.len() != "heartbeat"@.len());
    reveal_strlit("flip-horizontal");
    assert("flicker"@.len() != "flip-horizontal"@.len());
    reveal_strlit("flip-vertical");
    assert("flicker"@.len() != "flip-vertical"@.len());
    reveal_strlit("swing");
    assert("flicker"@.len() != "swing"@.len());
    reveal_strlit("sway");
    assert("flicker"@.len() != "sway"@.len());
    reveal_strlit("roll-in");
    assert("flicker"@[0] != "roll-in"@[0]);
    reveal_strlit("roll-out");
    assert("flicker"@.len() != "roll-out"@.len());
    reveal_strlit("puff-in");
    assert("flicker"@[0] != "puff-in"@[0]);
    reveal_strlit("puff-out");
    assert("flicker"@.len() != "puff-out"@.len());
    reveal_strlit("slide-rotate-hor");
    assert("flicker"@.len() != "slide-rotate-hor"@.len());
    reveal_strlit("slide-rotate-ver");
    assert("flicker"@.len() != "slide-rotate-ver"@.len());
}

proof fn lemma_named_36()
    ensures
        effect_named("tracking-in"@) == Some(EffectKind::TrackingIn),
{
    reveal_strlit("tracking-in");
    reveal_strlit("fade-in");
    assert("tracking-in"@.len() != "fade-in"@.len());
    reveal_strlit("fade-out");
    assert("tracking-in"@.len() != "fade-out"@.len());
    reveal_strlit("fade-in-out");
    assert("tracking-in"@[0] != "fade-in-out"@[0]);
    reveal_strlit("slide-in-top");
    assert("tracking-in"@.len() != "slide-in-top"@.len());
    reveal_strlit("slide-in-bottom");
    assert("tracking-in"@.len() != "slide-in-bottom"@.len());
    reveal_strlit("slide-in-left");
    assert("tracking-in"@.len() != "slide-in-left"@.len());
    reveal_strlit("slide-in-right");
    assert("tracking-in"@.len() != "slide-in-right"@.len());
    reveal_strlit("scale-up");
    assert("tracking-in"@.len() != "scale-up"@.len());
    reveal_strlit("scale-down");
    assert("tracking-in"@.len() != "scale-down"@.len());
    reveal_strlit("pulse");
    assert("tracking-in"@.len() != "pulse"@.len());
    reveal_strlit("bounce-in");
    assert("tracking-in"@.len() != "bounce-in"@.len());
    reveal_strlit("bounce-out");
    assert("tracking-in"@.len() != "bounce-out"@.len());
    reveal_strlit("typewriter");
    assert("tracking-in"@.len() != "typewriter"@.len());
    reveal_strlit("typewriter-reverse");
    assert("tracking-in"@.len() != "typewriter-reverse"@.len());
    reveal_strlit("wave");
    assert("tracking-in"@.len() != "wave"@.len());
    reveal_strlit("jello");
    assert("tracking-in"@.len() != "jello"@.len());
    reveal_strlit("color-cycle");
    assert("tracking-in"@[0] != "color-cycle"@[0]);
    reveal_strlit("rainbow");
    assert("tracking-in"@.len() != "rainbow"@.len());
    reveal_strlit("gradient-flow");
    assert("tracking-in"@.len() != "gradient-flow"@.len());
    reveal_strlit("rotate-in");
    assert("tracking-in"@.len() != "rotate-in"@.len());
    reveal_strlit("rotate-out");
    assert("tracking-in"@.len() != "rotate-out"@.len());
    reveal_strlit("shake");
    assert("tracking-in"@.len() != "shake"@.len());
    reveal_strlit("wobble");
    assert("tracking-in"@.len() != "wobble"@.len());
    reveal_strlit("vibrate");
    assert("tracking-in"@.len() != "vibrate"@.len());
    reveal_strlit("heartbeat");
    assert("tracking-in"@.len() != "heartbeat"@.len());
    reveal_strlit("flip-horizontal");
    assert("tracking-in"@.len() != "flip-horizontal"@.len());
    reveal_strlit("flip-vertical");
    assert("tracking-in"@.len() != "flip-vertical"@.len());
    reveal_strlit("swing");
    assert("tracking-in"@.len() != "swing"@.len());
    reveal_strlit("sway");
    assert("tracking-in"@.len() != "sway"@.len());
    reveal_strlit("roll-in");
    assert("tracking-in"@.len() != "roll-in"@.len());
    reveal_strlit("roll-out");
    assert("tracking-in"@.len() != "roll-out"@.len());
    reveal_strlit("puff-in");
    assert("tracking-in"@.len() != "puff-in"@.len());
    reveal_strlit("puff-out");
    assert("tracking-in"@.len() != "puff-out"@.len());
    reveal_strlit("slide-rotate-hor");
    assert("tracking-in"@.len() != "slide-rotate-hor"@.len());
    reveal_strlit("slide-rotate-ver");
    assert("tracking-in"@.len() != "slide-rotate-ver"@.len());
    reveal_strlit("flicker");
    assert("tracking-in"@.len() != "flicker"@.len());
}

proof fn lemma_named_37()
    ensures
        effect_named("tracking-out"@) == Some(EffectKind::TrackingOut),
{
    reveal_strlit("tracking-out");
    reveal_strlit("fade-in");
    assert("tracking-out"@.len() != "fade-in"@.len());
    reveal_strlit("fade-out");
    assert("tracking-out"@.len() != "fade-out"@.len());
    reveal_strlit("fade-in-out");
    assert("tracking-out"@.len() != "fade-in-out"@.len());
    reveal_strlit("slide-in-top");
    assert("tracking-out"@[0] != "slide-in-top"@[0]);
    reveal_strlit("slide-in-bottom");
    assert("tracking-out"@.len() != "slide-in-bottom"@.len());
    reveal_strlit("slide-in-left");
    assert("tracking-out"@.len() != "slide-in-left"@.len());
    reveal_strlit("slide-in-right");
    assert("tracking-out"@.len() != "slide-in-right"@.len());
    reveal_strlit("scale-up");
    assert("tracking-out"@.len() != "scale-up"@.len());
    reveal_strlit("scale-down");
    assert("tracking-out"@.len() != "scale-down"@.len());
    reveal_strlit("pulse");
    assert("tracking-out"@.len() != "pulse"@.len());
    reveal_strlit("bounce-in");
    assert("tracking-out"@.len() != "bounce-in"@.len());
    reveal_strlit("bounce-out");
    assert("tracking-out"@.len() != "bounce-out"@.len());
    reveal_strlit("typewriter");
    assert("tracking-out"@.len() != "typewriter"@.len());
    reveal_strlit("typewriter-reverse");
    assert("tracking-out"@.len() != "typewriter-reverse"@.len());
    reveal_strlit("wave");
    assert("tracking-out"@.len() != "wave"@.len());
    reveal_strlit("jello");
    assert("tracking-out"@.len() != "jello"@.len());
    reveal_strlit("color-cycle");
    assert("tracking-out"@.len() != "color-cycle"@.len());
    reveal_strlit("rainbow");
    assert("tracking-out"@.len() != "rainbow"@.len());
    reveal_strlit("gradient-flow");
    assert("tracking-out"@.len() != "gradient-flow"@.len());
    reveal_strlit("rotate-in");
    assert("tracking-out"@.len() != "rotate-in"@.len());
    reveal_strlit("rotate-out");
    assert("tracking-out"@.len() != "rotate-out"@.len());
    reveal_strlit("shake");
    assert("tracking-out"@.len() != "shake"@.len());
    reveal_strlit("wobble");
    assert("tracking-out"@.len() != "wobble"@.len());
    reveal_strlit("vibrate");
    assert("tracking-out"@.len() != "vibrate"@.len());
    reveal_strlit("heartbeat");
    assert("tracking-out"@.len() != "heartbeat"@.len());
    reveal_strlit("flip-horizontal");
    assert("tracking-out"@.len() != "flip-horizontal"@.len());
    reveal_strlit("flip-vertical");
    assert("tracking-out"@.len() != "flip-vertical"@.len());
    reveal_strlit("swing");
    assert("tracking-out"@.len() != "swing"@.len());
    reveal_strlit("sway");
    assert("tracking-out"@.len() != "sway"@.len());
    reveal_strlit("roll-in");
    assert("tracking-out"@.len() != "roll-in"@.len());
    reveal_strlit("roll-out");
    assert("tracking-out"@.len() != "roll-out"@.len());
    reveal_strlit("puff-in");
    assert("tracking-out"@.len() != "puff-in"@.len());
    reveal_strlit("puff-out");
    assert("tracking-out"@.len() != "puff-out"@.len());
    reveal_strlit("slide-rotate-hor");
    assert("tracking-out"@.len() != "slide-rotate-hor"@.len());
    reveal_strlit("slide-rotate-ver");
    assert("tracking-out"@.len() != "slide-rotate-ver"@.len());
    reveal_strlit("flicker");
    assert("tracking-out"@.len() != "flicker"@.len());
    reveal_strlit("tracking-in");
    assert("tracking-out"@.len() != "tracking-in"@.len());
}

proof fn lemma_named_38()
    ensures
        effect_named("bounce-top"@) == Some(EffectKind::BounceTop),
{
    reveal_strlit("bounce-top");
    reveal_strlit("fade-in");
    assert("bounce-top"@.len() != "fade-in"@.len());
    reveal_strlit("fade-out");
    assert("bounce-top"@.len() != "fade-out"@.len());
    reveal_strlit("fade-in-out");
    assert("bounce-top"@.len() != "fade-in-out"@.len());
    reveal_strlit("slide-in-top");
    assert("bounce-top"@.len() != "slide-in-top"@.len());
    reveal_strlit("slide-in-bottom");
    assert("bounce-top"@.len() != "slide-in-bottom"@.len());
    reveal_strlit("slide-in-left");
    assert("bounce-top"@.len() != "slide-in-left"@.len());
    reveal_strlit("slide-in-right");
    assert("bounce-top"@.len() != "slide-in-right"@.len());
    reveal_strlit("scale-up");
    assert("bounce-top"@.len() != "scale-up"@.len());
    reveal_strlit("scale-down");
    assert("bounce-top"@[0] != "scale-down"@[0]);
    reveal_strlit("pulse");
    assert("bounce-top"@.len() != "pulse"@.len());
    reveal_strlit("bounce-in");
    assert("bounce-top"@.len() != "bounce-in"@.len());
    reveal_strlit("bounce-out");
    assert("bounce-top"@[7] != "bounce-out"@[7]);
    reveal_strlit("typewriter");
    assert("bounce-top"@[0] != "typewriter"@[0]);
    reveal_strlit("typewriter-reverse");
    assert("bounce-top"@.len() != "typewriter-reverse"@.len());
    reveal_strlit("wave");
    assert("bounce-top"@.len() != "wave"@.len());
    reveal_strlit("jello");
    assert("bounce-top"@.len() != "jello"@.len());
    reveal_strlit("color-cycle");
    assert("bounce-top"@.len() != "color-cycle"@.len());
    reveal_strlit("rainbow");
    assert("bounce-top"@.len() != "rainbow"@.len());
    reveal_strlit("gradient-flow");
    assert("bounce-top"@.len() != "gradient-flow"@.len());
    reveal_strlit("rotate-in");
    assert("bounce-top"@.len() != "rotate-in"@.len());
    reveal_strlit("rotate-out");
    assert("bounce-top"@[0] != "rotate-out"@[0]);
    reveal_strlit("shake");
    assert("bounce-top"@.len() != "shake"@.len());
    reveal_strlit("wobble");
    assert("bounce-top"@.len() != "wobble"@.len());
    reveal_strlit("vibrate");
    assert("bounce-top"@.len() != "vibrate"@.len());
    reveal_strlit("heartbeat");
    assert("bounce-top"@.len() != "heartbeat"@.len());
    reveal_strlit("flip-horizontal");
    assert("bounce-top"@.len() != "flip-horizontal"@.len());
    reveal_strlit("flip-vertical");
    assert("bounce-top"@.len() != "flip-vertical"@.len());
    reveal_strlit("swing");
    assert("bounce-top"@.len() != "swing"@.len());
    reveal_strlit("sway");
    assert("bounce-top"@.len() != "sway"@.len());
    reveal_strlit("roll-in");
    assert("bounce-top"@.len() != "roll-in"@.len());
    reveal_strlit("roll-out");
    assert("bounce-top"@.len() != "roll-out"@.len());
    reveal_strlit("puff-in");
    assert("bounce-top"@.len() != "puff-in"@.len());
    reveal_strlit("puff-out");
    assert("bounce-top"@.len() != "puff-out"@.len());
    reveal_strlit("slide-rotate-hor");
    assert("bounce-top"@.len() != "slide-rotate-hor"@.len());
    reveal_strlit("slide-rotate-ver");
    assert("bounce-top"@.len() != "slide-rotate-ver"@.len());
    reveal_strlit("flicker");
    assert("bounce-top"@.len() != "flicker"@.len());
    reveal_strlit("tracking-in");
    assert("bounce-top"@.len() != "tracking-in"@.len());
    reveal_strlit("tracking-out");
    assert("bounce-top"@.len() != "tracking-out"@.len());
}

proof fn lemma_named_39()
    ensures
        effect_named("bounce-bottom"@) == Some(EffectKind::BounceBottom),
{
    reveal_strlit("bounce-bottom");
    reveal_strlit("fade-in");
    assert("bounce-bottom"@.len() != "fade-in"@.len());
    reveal_strlit("fade-out");
    assert("bounce-bottom"@.len() != "fade-out"@.len());
    reveal_strlit("fade-in-out");
    assert("bounce-bottom"@.len() != "fade-in-out"@.len());
    reveal_strlit("slide-in-top");
    assert("bounce-bottom"@.len() != "slide-in-top"@.len());
    reveal_strlit("slide-in-bottom");
    assert("bounce-bottom"@.len() != "slide-in-bottom"@.len());
    reveal_strlit("slide-in-left");
    assert("bounce-bottom"@[0] != "slide-in-left"@[0]);
    reveal_strlit("slide-in-right");
    assert("bounce-bottom"@.len() != "slide-in-right"@.len());
    reveal_strlit("scale-up");
    assert("bounce-bottom"@.len() != "scale-up"@.len());
    reveal_strlit("scale-down");
    assert("bounce-bottom"@.len() != "scale-down"@.len());
    reveal_strlit("pulse");
    assert("bounce-bottom"@.len() != "pulse"@.len());
    reveal_strlit("bounce-in");
    assert("bounce-bottom"@.len() != "bounce-in"@.len());
    reveal_strlit("bounce-out");
    assert("bounce-bottom"@.len() != "bounce-out"@.len());
    reveal_strlit("typewriter");
    assert("bounce-bottom"@.len() != "typewriter"@.len());
    reveal_strlit("typewriter-reverse");
    assert("bounce-bottom"@.len() != "typewriter-reverse"@.len());
    reveal_strlit("wave");
    assert("bounce-bottom"@.len() != "wave"@.len());
    reveal_strlit("jello");
    assert("bounce-bottom"@.len() != "jello"@.len());
    reveal_strlit("color-cycle");
    assert("bounce-bottom"@.len() != "color-cycle"@.len());
    reveal_strlit("rainbow");
    assert("bounce-bottom"@.len() != "rainbow"@.len());
    reveal_strlit("gradient-flow");
    assert("bounce-bottom"@[0] != "gradient-flow"@[0]);
    reveal_strlit("rotate-in");
    assert("bounce-bottom"@.len() != "rotate-in"@.len());
    reveal_strlit("rotate-out");
    assert("bounce-bottom"@.len() != "rotate-out"@.len());
    reveal_strlit("shake");
    assert("bounce-bottom"@.len() != "shake"@.len());
    reveal_strlit("wobble");
    assert("bounce-bottom"@.len() != "wobble"@.len());
    reveal_strlit("vibrate");
    assert("bounce-bottom"@.len() != "vibrate"@.len());
    reveal_strlit("heartbeat");
    assert("bounce-bottom"@.len() != "heartbeat"@.len());
    reveal_strlit("flip-horizontal");
    assert("bounce-bottom"@.len() != "flip-horizontal"@.len());
    reveal_strlit("flip-vertical");
    assert("bounce-bottom"@[0] != "flip-vertical"@[0]);
    reveal_strlit("swing");
    assert("bounce-bottom"@.len() != "swing"@.len());
    reveal_strlit("sway");
    assert("bounce-bottom"@.len() != "sway"@.len());
    reveal_strlit("roll-in");
    assert("bounce-bottom"@.len() != "roll-in"@.len());
    reveal_strlit("roll-out");
    assert("bounce-bottom"@.len() != "roll-out"@.len());
    reveal_strlit("puff-in");
    assert("bounce-bottom"@.len() != "puff-in"@.len());
    reveal_strlit("puff-out");
    assert("bounce-bottom"@.len() != "puff-out"@.len());
    reveal_strlit("slide-rotate-hor");
    assert("bounce-bottom"@.len() != "slide-rotate-hor"@.len());
    reveal_strlit("slide-rotate-ver");
    assert("bounce-bottom"@.len() != "slide-rotate-ver"@.len());
    reveal_strlit("flicker");
    assert("bounce-bottom"@.len() != "flicker"@.len());
    reveal_strlit("tracking-in");
    assert("bounce-bottom"@.len() != "tracking-in"@.len());
    reveal_strlit("tracking-out");
    assert("bounce-bottom"@.len() != "tracking-out"@.len());
    reveal_strlit("bounce-top");
    assert("bounce-bottom"@.len() != "bounce-top"@.len());
}

proof fn lemma_named_40()
    ensures
        effect_named("tilt-in"@) == Some(EffectKind::TiltIn),
{
    reveal_strlit("tilt-in");
    reveal_strlit("fade-in");
    assert("tilt-in"@[0] != "fade-in"@[0]);
    reveal_strlit("fade-out");
    assert("tilt-in"@.len() != "fade-out"@.len());
    reveal_strlit("fade-in-out");
    assert("tilt-in"@.len() != "fade-in-out"@.len());
    reveal_strlit("slide-in-top");
    assert("tilt-in"@.len() != "slide-in-top"@.len());
    reveal_strlit("slide-in-bottom");
    assert("tilt-in"@.len() != "slide-in-bottom"@.len());
    reveal_strlit("slide-in-left");
    assert("tilt-in"@.len() != "slide-in-left"@.len());
    reveal_strlit("slide-in-right");
    assert("tilt-in"@.len() != "slide-in-right"@.len());
    reveal_strlit("scale-up");
    assert("tilt-in"@.len() != "scale-up"@.len());
    reveal_strlit("scale-down");
    assert("tilt-in"@.len() != "scale-down"@.len());
    reveal_strlit("pulse");
    assert("tilt-in"@.len() != "pulse"@.len());
    reveal_strlit("bounce-in");
    assert("tilt-in"@.len() != "bounce-in"@.len());
    reveal_strlit("bounce-out");
    assert("tilt-in"@.len() != "bounce-out"@.len());
    reveal_strlit("typewriter");
    assert("tilt-in"@.len() != "typewriter"@.len());
    reveal_strlit("typewriter-reverse");
    assert("tilt-in"@.len() != "typewriter-reverse"@.len());
    reveal_strlit("wave");
    assert("tilt-in"@.len() != "wave"@.len());
    reveal_strlit("jello");
    assert("tilt-in"@.len() != "jello"@.len());
    reveal_strlit("color-cycle");
    assert("tilt-in"@.len() != "color-cycle"@.len());
    reveal_strlit("rainbow");
    assert("tilt-in"@[0] != "rainbow"@[0]);
    reveal_strlit("gradient-flow");
    assert("tilt-in"@.len() != "gradient-flow"@.len());
    reveal_strlit("rotate-in");
    assert("tilt-in"@.len() != "rotate-in"@.len());
    reveal_strlit("rotate-out");
    assert("tilt-in"@.len() != "rotate-out"@.len());
    reveal_strlit("shake");
    assert("tilt-in"@.len() != "shake"@.len());
    reveal_strlit("wobble");
    assert("tilt-in"@.len() != "wobble"@.len());
    reveal_strlit("vibrate");
    assert("tilt-in"@[0] != "vibrate"@[0]);
    reveal_strlit("heartbeat");
    assert("tilt-in"@.len() != "heartbeat"@.len());
    reveal_strlit("flip-horizontal");
    assert("tilt-in"@.len() != "flip-horizontal"@.len());
    reveal_strlit("flip-vertical");
    assert("tilt-in"@.len() != "flip-vertical"@.len());
    reveal_strlit("swing");
    assert("tilt-in"@.len() != "swing"@.len());
    reveal_strlit("sway");
    assert("tilt-in"@.len() != "sway"@.len());
    reveal_strlit("roll-in");
    assert("tilt-in"@[0] != "roll-in"@[0]);
    reveal_strlit("roll-out");
    assert("tilt-in"@.len() != "roll-out"@.len());
    reveal_strlit("puff-in");
    assert("tilt-in"@[0] != "puff-in"@[0]);
    reveal_strlit("puff-out");
    assert("tilt-in"@.len() != "puff-out"@.len());
    reveal_strlit("slide-rotate-hor");
    assert("tilt-in"@.len() != "slide-rotate-hor"@.len());
    reveal_strlit("slide-rotate-ver");
    assert("tilt-in"@.len() != "slide-rotate-ver"@.len());
    reveal_strlit("flicker");
    assert("tilt-in"@[0] != "flicker"@[0]);
    reveal_strlit("tracking-in");
    assert("tilt-in"@.len() != "tracking-in"@.len());
    reveal_strlit("tracking-out");
    assert("tilt-in"@.len() != "tracking-out"@.len());
    reveal_strlit("bounce-top");
    assert("tilt-in"@.len() != "bounce-top"@.len());
    reveal_strlit("bounce-bottom");
    assert("tilt-in"@.len() != "bounce-bottom"@.len());
}

proof fn lemma_named_41()
    ensures
        effect_named("slide-out-top"@) == Some(EffectKind::SlideOutTop),
{
    reveal_strlit("slide-out-top");
    reveal_strlit("fade-in");
    assert("slide-out-top"@.len() != "fade-in"@.len());
    reveal_strlit("fade-out");
    assert("slide-out-top"@.len() != "fade-out"@.len());
    reveal_strlit("fade-in-out");
    assert("slide-out-top"@.len() != "fade-in-out"@.len());
    reveal_strlit("slide-in-top");
    assert("slide-out-top"@.len() != "slide-in-top"@.len());
    reveal_strlit("slide-in-bottom");
    assert("slide-out-top"@.len() != "slide-in-bottom"@.len());
    reveal_strlit("slide-in-left");
    assert("slide-out-top"@[6] != "slide-in-left"@[6]);
    reveal_strlit("slide-in-right");
    assert("slide-out-top"@.len() != "slide-in-right"@.len());
    reveal_strlit("scale-up");
    assert("slide-out-top"@.len() != "scale-up"@.len());
    reveal_strlit("scale-down");
    assert("slide-out-top"@.len() != "scale-down"@.len());
    reveal_strlit("pulse");
    assert("slide-out-top"@.len() != "pulse"@.len());
    reveal_strlit("bounce-in");
    assert("slide-out-top"@.len() != "bounce-in"@.len());
    reveal_strlit("bounce-out");
    assert("slide-out-top"@.len() != "bounce-out"@.len());
    reveal_strlit("typewriter");
    assert("slide-out-top"@.len() != "typewriter"@.len());
    reveal_strlit("typewriter-reverse");
    assert("slide-out-top"@.len() != "typewriter-reverse"@.len());
    reveal_strlit("wave");
    assert("slide-out-top"@.len() != "wave"@.len());
    reveal_strlit("jello");
    assert("slide-out-top"@.len() != "jello"@.len());
    reveal_strlit("color-cycle");
    assert("slide-out-top"@.len() != "color-cycle"@.len());
    reveal_strlit("rainbow");
    assert("slide-out-top"@.len() != "rainbow"@.len());
    reveal_strlit("gradient-flow");
    assert("slide-out-top"@[0] != "gradient-flow"@[0]);
    reveal_strlit("rotate-in");
    assert("slide-out-top"@.len() != "rotate-in"@.len());
    reveal_strlit("rotate-out");
    assert("slide-out-top"@.len() != "rotate-out"@.len());
    reveal_strlit("shake");
    assert("slide-out-top"@.len() != "shake"@.len());
    reveal_strlit("wobble");
    assert("slide-out-top"@.len() != "wobble"@.len());
    reveal_strlit("vibrate");
    assert("slide-out-top"@.len() != "vibrate"@.len());
    reveal_strlit("heartbeat");
    assert("slide-out-top"@.len() != "heartbeat"@.len());
    reveal_strlit("flip-horizontal");
    assert("slide-out-top"@.len() != "flip-horizontal"@.len());
    reveal_strlit("flip-vertical");
    assert("slide-out-top"@[0] != "flip-vertical"@[0]);
    reveal_strlit("swing");
    assert("slide-out-top"@.len() != "swing"@.len());
    reveal_strlit("sway");
    assert("slide-out-top"@.len() != "sway"@.len());
    reveal_strlit("roll-in");
    assert("slide-out-top"@.len() != "roll-in"@.len());
    reveal_strlit("roll-out");
    assert("slide-out-top"@.len() != "roll-out"@.len());
    reveal_strlit("puff-in");
    assert("slide-out-top"@.len() != "puff-in"@.len());
    reveal_strlit("puff-out");
    assert("slide-out-top"@.len() != "puff-out"@.len());
    reveal_strlit("slide-rotate-hor");
    assert("slide-out-top"@.len() != "slide-rotate-hor"@.len());
    reveal_strlit("slide-rotate-ver");
    assert("slide-out-top"@.len() != "slide-rotate-ver"@.len());
    reveal_strlit("flicker");
    assert("slide-out-top"@.len() != "flicker"@.len());
    reveal_strlit("tracking-in");
    assert("slide-out-top"@.len() != "tracking-in"@.len());
    reveal_strlit("tracking-out");
    assert("slide-out-top"@.len() != "tracking-out"@.len());
    reveal_strlit("bounce-top");
    assert("slide-out-top"@.len() != "bounce-top"@.len());
    reveal_strlit("bounce-bottom");
    assert("slide-out-top"@[0] != "bounce-bottom"@[0]);
    reveal_strlit("tilt-in");
    assert("slide-out-top"@.len() != "tilt-in"@.len());
}

proof fn lemma_named_42()
    ensures
        effect_named("slide-out-bottom"@) == Some(EffectKind::SlideOutBottom),
{
    reveal_strlit("slide-out-bottom");
    reveal_strlit("fade-in");
    assert("slide-out-bottom"@.len() != "fade-in"@.len());
    reveal_strlit("fade-out");
    assert("slide-out-bottom"@.len() != "fade-out"@.len());
    reveal_strlit("fade-in-out");
    assert("slide-out-bottom"@.len() != "fade-in-out"@.len());
    reveal_strlit("slide-in-top");
    assert("slide-out-bottom"@.len() != "slide-in-top"@.len());
    reveal_strlit("slide-in-bottom");
    assert("slide-out-bottom"@.len() != "slide-in-bottom"@.len());
    reveal_strlit("slide-in-left");
    assert("slide-out-bottom"@.len() != "slide-in-left"@.len());
    reveal_strlit("slide-in-right");
    assert("slide-out-bottom"@.len() != "slide-in-right"@.len());
    reveal_strlit("scale-up");
    assert("slide-out-bottom"@.len() != "scale-up"@.len());
    reveal_strlit("scale-down");
    assert("slide-out-bottom"@.len() != "scale-down"@.len());
    reveal_strlit("pulse");
    assert("slide-out-bottom"@.len() != "pulse"@.len());
    reveal_strlit("bounce-in");
    assert("slide-out-bottom"@.len() != "bounce-in"@.len());
    reveal_strlit("bounce-out");
    assert("slide-out-bottom"@.len() != "bounce-out"@.len());
    reveal_strlit("typewriter");
    assert("slide-out-bottom"@.len() != "typewriter"@.len());
    reveal_strlit("typewriter-reverse");
    assert("slide-out-bottom"@.len() != "typewriter-reverse"@.len());
    reveal_strlit("wave");
    assert("slide-out-bottom"@.len() != "wave"@.len());
    reveal_strlit("jello");
    assert("slide-out-bottom"@.len() != "jello"@.len());
    reveal_strlit("color-cycle");
    assert("slide-out-bottom"@.len() != "color-cycle"@.len());
    reveal_strlit("rainbow");
    assert("slide-out-bottom"@.len() != "rainbow"@.len());
    reveal_strlit("gradient-flow");
    assert("slide-out-bottom"@.len() != "gradient-flow"@.len());
    reveal_strlit("rotate-in");
    assert("slide-out-bottom"@.len() != "rotate-in"@.len());
    reveal_strlit("rotate-out");
    assert("slide-out-bottom"@.len() != "rotate-out"@.len());
    reveal_strlit("shake");
    assert("slide-out-bottom"@.len() != "shake"@.len());
    reveal_strlit("wobble");
    assert("slide-out-bottom"@.len() != "wobble"@.len());
    reveal_strlit("vibrate");
    assert("slide-out-bottom"@.len() != "vibrate"@.len());
    reveal_strlit("heartbeat");
    assert("slide-out-bottom"@.len() != "heartbeat"@.len());
    reveal_strlit("flip-horizontal");
    assert("slide-out-bottom"@.len() != "flip-horizontal"@.len());
    reveal_strlit("flip-vertical");
    assert("slide-out-bottom"@.len() != "flip-vertical"@.len());
    reveal_strlit("swing");
    assert("slide-out-bottom"@.len() != "swing"@.len());
    reveal_strlit("sway");
    assert("slide-out-bottom"@.len() != "sway"@.len());
    reveal_strlit("roll-in");
    assert("slide-out-bottom"@.len() != "roll-in"@.len());
    reveal_strlit("roll-out");
    assert("slide-out-bottom"@.len() != "roll-out"@.len());
    reveal_strlit("puff-in");
    assert("slide-out-bottom"@.len() != "puff-in"@.len());
    reveal_strlit("puff-out");
    assert("slide-out-bottom"@.len() != "puff-out"@.len());
    reveal_strlit("slide-rotate-hor");
    assert("slide-out-bottom"@[6] != "slide-rotate-hor"@[6]);
    reveal_strlit("slide-rotate-ver");
    assert("slide-out-bottom"@[6] != "slide-rotate-ver"@[6]);
    reveal_strlit("flicker");
    assert("slide-out-bottom"@.len() != "flicker"@.len());
    reveal_strlit("tracking-in");
    assert("slide-out-bottom"@.len() != "tracking-in"@.len());
    reveal_strlit("tracking-out");
    assert("slide-out-bottom"@.len() != "tracking-out"@.len());
    reveal_strlit("bounce-top");
    assert("slide-out-bottom"@.len() != "bounce-top"@.len());
    reveal_strlit("bounce-bottom");
    assert("slide-out-bottom"@.len() != "bounce-bottom"@.len());
    reveal_strlit("tilt-in");
    assert("slide-out-bottom"@.len() != "tilt-in"@.len());
    reveal_strlit("slide-out-top");
    assert("slide-out-bottom"@.len() != "slide-out-top"@.len());
}

proof fn lemma_named_43()
    ensures
        effect_named("slide-out-left"@) == Some(EffectKind::SlideOutLeft),
{
    reveal_strlit("slide-out-left");
    reveal_strlit("fade-in");
    assert("slide-out-left"@.len() != "fade-in"@.len());
    reveal_strlit("fade-out");
    assert("slide-out-left"@.len() != "fade-out"@.len());
    reveal_strlit("fade-in-out");
    assert("slide-out-left"@.len() != "fade-in-out"@.len());
    reveal_strlit("slide-in-top");
    assert("slide-out-left"@.len() != "slide-in-top"@.len());
    reveal_strlit("slide-in-bottom");
    assert("slide-out-left"@.len() != "slide-in-bottom"@.len());
    reveal_strlit("slide-in-left");
    assert("slide-out-left"@.len() != "slide-in-left"@.len());
    reveal_strlit("slide-in-right");
    assert("slide-out-left"@[6] != "slide-in-right"@[6]);
    reveal_strlit("scale-up");
    assert("slide-out-left"@.len() != "scale-up"@.len());
    reveal_strlit("scale-down");
    assert("slide-out-left"@.len() != "scale-down"@.len());
    reveal_strlit("pulse");
    assert("slide-out-left"@.len() != "pulse"@.len());
    reveal_strlit("bounce-in");
    assert("slide-out-left"@.len() != "bounce-in"@.len());
    reveal_strlit("bounce-out");
    assert("slide-out-left"@.len() != "bounce-out"@.len());
    reveal_strlit("typewriter");
    assert("slide-out-left"@.len() != "typewriter"@.len());
    reveal_strlit("typewriter-reverse");
    assert("slide-out-left"@.len() != "typewriter-reverse"@.len());
    reveal_strlit("wave");
    assert("slide-out-left"@.len() != "wave"@.len());
    reveal_strlit("jello");
    assert("slide-out-left"@.len() != "jello"@.len());
    reveal_strlit("color-cycle");
    assert("slide-out-left"@.len() != "color-cycle"@.len());
    reveal_strlit("rainbow");
    assert("slide-out-left"@.len() != "rainbow"@.len());
    reveal_strlit("gradient-flow");
    assert("slide-out-left"@.len() != "gradient-flow"@.len());
    reveal_strlit("rotate-in");
    assert("slide-out-left"@.len() != "rotate-in"@.len());
    reveal_strlit("rotate-out");
    assert("slide-out-left"@.len() != "rotate-out"@.len());
    reveal_strlit("shake");
    assert("slide-out-left"@.len() != "shake"@.len());
    reveal_strlit("wobble");
    assert("slide-out-left"@.len() != "wobble"@.len());
    reveal_strlit("vibrate");
    assert("slide-out-left"@.len() != "vibrate"@.len());
    reveal_strlit("heartbeat");
    assert("slide-out-left"@.len() != "heartbeat"@.len());
    reveal_strlit("flip-horizontal");
    assert("slide-out-left"@.len() != "flip-horizontal"@.len());
    reveal_strlit("flip-vertical");
    assert("slide-out-left"@.len() != "flip-vertical"@.len());
    reveal_strlit("swing");
    assert("slide-out-left"@.len() != "swing"@.len());
    reveal_strlit("sway");
    assert("slide-out-left"@.len() != "sway"@.len());
    reveal_strlit("roll-in");
    assert("slide-out-left"@.len() != "roll-in"@.len());
    reveal_strlit("roll-out");
    assert("slide-out-left"@.len() != "roll-out"@.len());
    reveal_strlit("puff-in");
    assert("slide-out-left"@.len() != "puff-in"@.len());
    reveal_strlit("puff-out");
    assert("slide-out-left"@.len() != "puff-out"@.len());
    reveal_strlit("slide-rotate-hor");
    assert("slide-out-left"@.len() != "slide-rotate-hor"@.len());
    reveal_strlit("slide-rotate-ver");
    assert("slide-out-left"@.len() != "slide-rotate-ver"@.len());
    reveal_strlit("flicker");
    assert("slide-out-left"@.len() != "flicker"@.len());
    reveal_strlit("tracking-in");
    assert("slide-out-left"@.len() != "tracking-in"@.len());
    reveal_strlit("tracking-out");
    assert("slide-out-left"@.len() != "tracking-out"@.len());
    reveal_strlit("bounce-top");
    assert("slide-out-left"@.len() != "bounce-top"@.len());
    reveal_strlit("bounce-bottom");
    assert("slide-out-left"@.len() != "bounce-bottom"@.len());
    reveal_strlit("tilt-in");
    assert("slide-out-left"@.len() != "tilt-in"@.len());
    reveal_strlit("slide-out-top");
    assert("slide-out-left"@.len() != "slide-out-top"@.len());
    reveal_strlit("slide-out-bottom");
    assert("slide-out-left"@.len() != "slide-out-bottom"@.len());
}

proof fn lemma_named_44()
    ensures
        effect_named("slide-out-right"@) == Some(EffectKind::SlideOutRight),
{
    reveal_strlit("slide-out-right");
    reveal_strlit("fade-in");
    assert("slide-out-right"@.len() != "fade-in"@.len());
    reveal_strlit("fade-out");
    assert("slide-out-right"@.len() != "fade-out"@.len());
    reveal_strlit("fade-in-out");
    assert("slide-out-right"@.len() != "fade-in-out"@.len());
    reveal_strlit("slide-in-top");
    assert("slide-out-right"@.len() != "slide-in-top"@.len());
    reveal_strlit("slide-in-bottom");
    assert("slide-out-right"@[6] != "slide-in-bottom"@[6]);
    reveal_strlit("slide-in-left");
    assert("slide-out-right"@.len() != "slide-in-left"@.len());
    reveal_strlit("slide-in-right");
    assert("slide-out-right"@.len() != "slide-in-right"@.len());
    reveal_strlit("scale-up");
    assert("slide-out-right"@.len() != "scale-up"@.len());
    reveal_strlit("scale-down");
    assert("slide-out-right"@.len() != "scale-down"@.len());
    reveal_strlit("pulse");
    assert("slide-out-right"@.len() != "pulse"@.len());
    reveal_strlit("bounce-in");
    assert("slide-out-right"@.len() != "bounce-in"@.len());
    reveal_strlit("bounce-out");
    assert("slide-out-right"@.len() != "bounce-out"@.len());
    reveal_strlit("typewriter");
    assert("slide-out-right"@.len() != "typewriter"@.len());
    reveal_strlit("typewriter-reverse");
    assert("slide-out-right"@.len() != "typewriter-reverse"@.len());
    reveal_strlit("wave");
    assert("slide-out-right"@.len() != "wave"@.len());
    reveal_strlit("jello");
    assert("slide-out-right"@.len() != "jello"@.len());
    reveal_strlit("color-cycle");
    assert("slide-out-right"@.len() != "color-cycle"@.len());
    reveal_strlit("rainbow");
    assert("slide-out-right"@.len() != "rainbow"@.len());
    reveal_strlit("gradient-flow");
    assert("slide-out-right"@.len() != "gradient-flow"@.len());
    reveal_strlit("rotate-in");
    assert("slide-out-right"@.len() != "rotate-in"@.len());
    reveal_strlit("rotate-out");
    assert("slide-out-right"@.len() != "rotate-out"@.len());
    reveal_strlit("shake");
    assert("slide-out-right"@.len() != "shake"@.len());
    reveal_strlit("wobble");
    assert("slide-out-right"@.len() != "wobble"@.len());
    reveal_strlit("vibrate");
    assert("slide-out-right"@.len() != "vibrate"@.len());
    reveal_strlit("heartbeat");
    assert("slide-out-right"@.len() != "heartbeat"@.len());
    reveal_strlit("flip-horizontal");
    assert("slide-out-right"@[0] != "flip-horizontal"@[0]);
    reveal_strlit("flip-vertical");
    assert("slide-out-right"@.len() != "flip-vertical"@.len());
    reveal_strlit("swing");
    assert("slide-out-right"@.len() != "swing"@.len());
    reveal_strlit("sway");
    assert("slide-out-right"@.len() != "sway"@.len());
    reveal_strlit("roll-in");
    assert("slide-out-right"@.len() != "roll-in"@.len());
    reveal_strlit("roll-out");
    assert("slide-out-right"@.len() != "roll-out"@.len());
    reveal_strlit("puff-in");
    assert("slide-out-right"@.len() != "puff-in"@.len());
    reveal_strlit("puff-out");
    assert("slide-out-right"@.len() != "puff-out"@.len());
    reveal_strlit("slide-rotate-hor");
    assert("slide-out-right"@.len() != "slide-rotate-hor"@.len());
    reveal_strlit("slide-rotate-ver");
    assert("slide-out-right"@.len() != "slide-rotate-ver"@.len());
    reveal_strlit("flicker");
    assert("slide-out-right"@.len() != "flicker"@.len());
    reveal_strlit("tracking-in");
    assert("slide-out-right"@.len() != "tracking-in"@.len());
    reveal_strlit("tracking-out");
    assert("slide-out-right"@.len() != "tracking-out"@.len());
    reveal_strlit("bounce-top");
    assert("slide-out-right"@.len() != "bounce-top"@.len());
    reveal_strlit("bounce-bottom");
    assert("slide-out-right"@.len() != "bounce-bottom"@.len());
    reveal_strlit("tilt-in");
    assert("slide-out-right"@.len() != "tilt-in"@.len());
    reveal_strlit("slide-out-top");
    assert("slide-out-right"@.len() != "slide-out-top"@.len());
    reveal_strlit("slide-out-bottom");
    assert("slide-out-right"@.len() != "slide-out-bottom"@.len());
    reveal_strlit("slide-out-left");
    assert("slide-out-right"@.len() != "slide-out-left"@.len());
}

proof fn lemma_named_45()
    ensures
        effect_named("blink"@) == Some(EffectKind::Blink),
{
    reveal_strlit("blink");
    reveal_strlit("fade-in");
    assert("blink"@.len() != "fade-in"@.len());
    reveal_strlit("fade-out");
    assert("blink"@.len() != "fade-out"@.len());
    reveal_strlit("fade-in-out");
    assert("blink"@.len() != "fade-in-out"@.len());
    reveal_strlit("slide-in-top");
    assert("blink"@.len() != "slide-in-top"@.len());
    reveal_strlit("slide-in-bottom");
    assert("blink"@.len() != "slide-in-bottom"@.len());
    reveal_strlit("slide-in-left");
    assert("blink"@.len() != "slide-in-left"@.len());
    reveal_strlit("slide-in-right");
    assert("blink"@.len() != "slide-in-right"@.len());
    reveal_strlit("scale-up");
    assert("blink"@.len() != "scale-up"@.len());
    reveal_strlit("scale-down");
    assert("blink"@.len() != "scale-down"@.len());
    reveal_strlit("pulse");
    assert("blink"@[0] != "pulse"@[0]);
    reveal_strlit("bounce-in");
    assert("blink"@.len() != "bounce-in"@.len());
    reveal_strlit("bounce-out");
    assert("blink"@.len() != "bounce-out"@.len());
    reveal_strlit("typewriter");
    assert("blink"@.len() != "typewriter"@.len());
    reveal_strlit("typewriter-reverse");
    assert("blink"@.len() != "typewriter-reverse"@.len());
    reveal_strlit("wave");
    assert("blink"@.len() != "wave"@.len());
    reveal_strlit("jello");
    assert("blink"@[0] != "jello"@[0]);
    reveal_strlit("color-cycle");
    assert("blink"@.len() != "color-cycle"@.len());
    reveal_strlit("rainbow");
    assert("blink"@.len() != "rainbow"@.len());
    reveal_strlit("gradient-flow");
    assert("blink"@.len() != "gradient-flow"@.len());
    reveal_strlit("rotate-in");
    assert("blink"@.len() != "rotate-in"@.len());
    reveal_strlit("rotate-out");
    assert("blink"@.len() != "rotate-out"@.len());
    reveal_strlit("shake");
    assert("blink"@[0] != "shake"@[0]);
    reveal_strlit("wobble");
    assert("blink"@.len() != "wobble"@.len());
    reveal_strlit("vibrate");
    assert("blink"@.len() != "vibrate"@.len());
    reveal_strlit("heartbeat");
    assert("blink"@.len() != "heartbeat"@.len());
    reveal_strlit("flip-horizontal");
    assert("blink"@.len() != "flip-horizontal"@.len());
    reveal_strlit("flip-vertical");
    assert("blink"@.len() != "flip-vertical"@.len());
    reveal_strlit("swing");
    assert("blink"@[0] != "swing"@[0]);
    reveal_strlit("sway");
    assert("blink"@.len() != "sway"@.len());
    reveal_strlit("roll-in");
    assert("blink"@.len() != "roll-in"@.len());
    reveal_strlit("roll-out");
    assert("blink"@.len() != "roll-out"@.len());
    reveal_strlit("puff-in");
    assert("blink"@.len() != "puff-in"@.len());
    reveal_strlit("puff-out");
    assert("blink"@.len() != "puff-out"@.len());
    reveal_strlit("slide-rotate-hor");
    assert("blink"@.len() != "slide-rotate-hor"@.len());
    reveal_strlit("slide-rotate-ver");
    assert("blink"@.len() != "slide-rotate-ver"@.len());
    reveal_strlit("flicker");
    assert("blink"@.len() != "flicker"@.len());
    reveal_strlit("tracking-in");
    assert("blink"@.len() != "tracking-in"@.len());
    reveal_strlit("tracking-out");
    assert("blink"@.len() != "tracking-out"@.len());
    reveal_strlit("bounce-top");
    assert("blink"@.len() != "bounce-top"@.len());
    reveal_strlit("bounce-bottom");
    assert("blink"@.len() != "bounce-bottom"@.len());
    reveal_strlit("tilt-in");
    assert("blink"@.len() != "tilt-in"@.len());
    reveal_strlit("slide-out-top");
    assert("blink"@.len() != "slide-out-top"@.len());
    reveal_strlit("slide-out-bottom");
    assert("blink"@.len() != "slide-out-bottom"@.len());
    reveal_strlit("slide-out-left");
    assert("blink"@.len() != "slide-out-left"@.len());
    reveal_strlit("slide-out-right");
    assert("blink"@.len() != "slide-out-right"@.len());
}

proof fn lemma_named_46()
    ensures
        effect_named("focus-in"@) == Some(EffectKind::FocusIn),
{
    reveal_strlit("focus-in");
    reveal_strlit("fade-in");
    assert("focus-in"@.len() != "fade-in"@.len());
    reveal_strlit("fade-out");
    assert("focus-in"@[1] != "fade-out"@[1]);
    reveal_strlit("fade-in-out");
    assert("focus-in"@.len() != "fade-in-out"@.len());
    reveal_strlit("slide-in-top");
    assert("focus-in"@.len() != "slide-in-top"@.len());
    reveal_strlit("slide-in-bottom");
    assert("focus-in"@.len() != "slide-in-bottom"@.len());
    reveal_strlit("slide-in-left");
    assert("focus-in"@.len() != "slide-in-left"@.len());
    reveal_strlit("slide-in-right");
    assert("focus-in"@.len() != "slide-in-right"@.len());
    reveal_strlit("scale-up");
    assert("focus-in"@[0] != "scale-up"@[0]);
    reveal_strlit("scale-down");
    assert("focus-in"@.len() != "scale-down"@.len());
    reveal_strlit("pulse");
    assert("focus-in"@.len() != "pulse"@.len());
    reveal_strlit("bounce-in");
    assert("focus-in"@.len() != "bounce-in"@.len());
    reveal_strlit("bounce-out");
    assert("focus-in"@.len() != "bounce-out"@.len());
    reveal_strlit("typewriter");
    assert("focus-in"@.len() != "typewriter"@.len());
    reveal_strlit("typewriter-reverse");
    assert("focus-in"@.len() != "typewriter-reverse"@.len());
    reveal_strlit("wave");
    assert("focus-in"@.len() != "wave"@.len());
    reveal_strlit("jello");
    assert("focus-in"@.len() != "jello"@.len());
    reveal_strlit("color-cycle");
    assert("focus-in"@.len() != "color-cycle"@.len());
    reveal_strlit("rainbow");
    assert("focus-in"@.len() != "rainbow"@.len());
    reveal_strlit("gradient-flow");
    assert("focus-in"@.len() != "gradient-flow"@.len());
    reveal_strlit("rotate-in");
    assert("focus-in"@.len() != "rotate-in"@.len());
    reveal_strlit("rotate-out");
    assert("focus-in"@.len() != "rotate-out"@.len());
    reveal_strlit("shake");
    assert("focus-in"@.len() != "shake"@.len());
    reveal_strlit("wobble");
    assert("focus-in"@.len() != "wobble"@.len());
    reveal_strlit("vibrate");
    assert("focus-in"@.len() != "vibrate"@.len());
    reveal_strlit("heartbeat");
    assert("focus-in"@.len() != "heartbeat"@.len());
    reveal_strlit("flip-horizontal");
    assert("focus-in"@.len() != "flip-horizontal"@.len());
    reveal_strlit("flip-vertical");
    assert("focus-in"@.len() != "flip-vertical"@.len());
    reveal_strlit("swing");
    assert("focus-in"@.len() != "swing"@.len());
    reveal_strlit("sway");
    assert("focus-in"@.len() != "sway"@.len());
    reveal_strlit("roll-in");
    assert("focus-in"@.len() != "roll-in"@.len());
    reveal_strlit("roll-out");
    assert("focus-in"@[0] != "roll-out"@[0]);
    reveal_strlit("puff-in");
    assert("focus-in"@.len() != "puff-in"@.len());
    reveal_strlit("puff-out");
    assert("focus-in"@[0] != "puff-out"@[0]);
    reveal_strlit("slide-rotate-hor");
    assert("focus-in"@.len() != "slide-rotate-hor"@.len());
    reveal_strlit("slide-rotate-ver");
    assert("focus-in"@.len() != "slide-rotate-ver"@.len());
    reveal_strlit("flicker");
    assert("focus-in"@.len() != "flicker"@.len());
    reveal_strlit("tracking-in");
    assert("focus-in"@.len() != "tracking-in"@.len());
    reveal_strlit("tracking-out");
    assert("focus-in"@.len() != "tracking-out"@.len());
    reveal_strlit("bounce-top");
    assert("focus-in"@.len() != "bounce-top"@.len());
    reveal_strlit("bounce-bottom");
    assert("focus-in"@.len() != "bounce-bottom"@.len());
    reveal_strlit("tilt-in");
    assert("focus-in"@.len() != "tilt-in"@.len());
    reveal_strlit("slide-out-top");
    assert("focus-in"@.len() != "slide-out-top"@.len());
    reveal_strlit("slide-out-bottom");
    assert("focus-in"@.len() != "slide-out-bottom"@.len());
    reveal_strlit("slide-out-left");
    assert("focus-in"@.len() != "slide-out-left"@.len());
    reveal_strlit("slide-out-right");
    assert("focus-in"@.len() != "slide-out-right"@.len());
    reveal_strlit("blink");
    assert("focus-in"@.len() != "blink"@.len());
}

proof fn lemma_named_47()
    ensures
        effect_named("blur-out"@) == Some(EffectKind::BlurOut),
{
    reveal_strlit("blur-out");
    reveal_strlit("fade-in");
    assert("blur-out"@.len() != "fade-in"@.len());
    reveal_strlit("fade-out");
    assert("blur-out"@[0] != "fade-out"@[0]);
    reveal_strlit("fade-in-out");
    assert("blur-out"@.len() != "fade-in-out"@.len());
    reveal_strlit("slide-in-top");
    assert("blur-out"@.len() != "slide-in-top"@.len());
    reveal_strlit("slide-in-bottom");
    assert("blur-out"@.len() != "slide-in-bottom"@.len());
    reveal_strlit("slide-in-left");
    assert("blur-out"@.len() != "slide-in-left"@.len());
    reveal_strlit("slide-in-right");
    assert("blur-out"@.len() != "slide-in-right"@.len());
    reveal_strlit("scale-up");
    assert("blur-out"@[0] != "scale-up"@[0]);
    reveal_strlit("scale-down");
    assert("blur-out"@.len() != "scale-down"@.len());
    reveal_strlit("pulse");
    assert("blur-out"@.len() != "pulse"@.len());
    reveal_strlit("bounce-in");
    assert("blur-out"@.len() != "bounce-in"@.len());
    reveal_strlit("bounce-out");
    assert("blur-out"@.len() != "bounce-out"@.len());
    reveal_strlit("typewriter");
    assert("blur-out"@.len() != "typewriter"@.len());
    reveal_strlit("typewriter-reverse");
    assert("blur-out"@.len() != "typewriter-reverse"@.len());
    reveal_strlit("wave");
    assert("blur-out"@.len() != "wave"@.len());
    reveal_strlit("jello");
    assert("blur-out"@.len() != "jello"@.len());
    reveal_strlit("color-cycle");
    assert("blur-out"@.len() != "color-cycle"@.len());
    reveal_strlit("rainbow");
    assert("blur-out"@.len() != "rainbow"@.len());
    reveal_strlit("gradient-flow");
    assert("blur-out"@.len() != "gradient-flow"@.len());
    reveal_strlit("rotate-in");
    assert("blur-out"@.len() != "rotate-in"@.len());
    reveal_strlit("rotate-out");
    assert("blur-out"@.len() != "rotate-out"@.len());
    reveal_strlit("shake");
    assert("blur-out"@.len() != "shake"@.len());
    reveal_strlit("wobble");
    assert("blur-out"@.len() != "wobble"@.len());
    reveal_strlit("vibrate");
    assert("blur-out"@.len() != "vibrate"@.len());
    reveal_strlit("heartbeat");
    assert("blur-out"@.len() != "heartbeat"@.len());
    reveal_strlit("flip-horizontal");
    assert("blur-out"@.len() != "flip-horizontal"@.len());
    reveal_strlit("flip-vertical");
    assert("blur-out"@.len() != "flip-vertical"@.len());
    reveal_strlit("swing");
    assert("blur-out"@.len() != "swing"@.len());
    reveal_strlit("sway");
    assert("blur-out"@.len() != "sway"@.len());
    reveal_strlit("roll-in");
    assert("blur-out"@.len() != "roll-in"@.len());
    reveal_strlit("roll-out");
    assert("blur-out"@[0] != "roll-out"@[0]);
    reveal_strlit("puff-in");
    assert("blur-out"@.len() != "puff-in"@.len());
    reveal_strlit("puff-out");
    assert("blur-out"@[0] != "puff-out"@[0]);
    reveal_strlit("slide-rotate-hor");
    assert("blur-out"@.len() != "slide-rotate-hor"@.len());
    reveal_strlit("slide-rotate-ver");
    assert("blur-out"@.len() != "slide-rotate-ver"@.len());
    reveal_strlit("flicker");
    assert("blur-out"@.len() != "flicker"@.len());
    reveal_strlit("tracking-in");
    assert("blur-out"@.len() != "tracking-in"@.len());
    reveal_strlit("tracking-out");
    assert("blur-out"@.len() != "tracking-out"@.len());
    reveal_strlit("bounce-top");
    assert("blur-out"@.len() != "bounce-top"@.len());
    reveal_strlit("bounce-bottom");
    assert("blur-out"@.len() != "bounce-bottom"@.len());
    reveal_strlit("tilt-in");
    assert("blur-out"@.len() != "tilt-in"@.len());
    reveal_strlit("slide-out-top");
    assert("blur-out"@.len() != "slide-out-top"@.len());
    reveal_strlit("slide-out-bottom");
    assert("blur-out"@.len() != "slide-out-bottom"@.len());
    reveal_strlit("slide-out-left");
    assert("blur-out"@.len() != "slide-out-left"@.len());
    reveal_strlit("slide-out-right");
    assert("blur-out"@.len() != "slide-out-right"@.len());
    reveal_strlit("blink");
    assert("blur-out"@.len() != "blink"@.len());
    reveal_strlit("focus-in");
    assert("blur-out"@[0] != "focus-in"@[0]);
}

proof fn lemma_named_48()
    ensures
        effect_named("shadow-drop"@) == Some(EffectKind::ShadowDrop),
{
    reveal_strlit("shadow-drop");
    reveal_strlit("fade-in");
    assert("shadow-drop"@.len() != "fade-in"@.len());
    reveal_strlit("fade-out");
    assert("shadow-drop"@.len() != "fade-out"@.len());
    reveal_strlit("fade-in-out");
    assert("shadow-drop"@[0] != "fade-in-out"@[0]);
    reveal_strlit("slide-in-top");
    assert("shadow-drop"@.len() != "slide-in-top"@.len());
    reveal_strlit("slide-in-bottom");
    assert("shadow-drop"@.len() != "slide-in-bottom"@.len());
    reveal_strlit("slide-in-left");
    assert("shadow-drop"@.len() != "slide-in-left"@.len());
    reveal_strlit("slide-in-right");
    assert("shadow-drop"@.len() != "slide-in-right"@.len());
    reveal_strlit("scale-up");
    assert("shadow-drop"@.len() != "scale-up"@.len());
    reveal_strlit("scale-down");
    assert("shadow-drop"@.len() != "scale-down"@.len());
    reveal_strlit("pulse");
    assert("shadow-drop"@.len() != "pulse"@.len());
    reveal_strlit("bounce-in");
    assert("shadow-drop"@.len() != "bounce-in"@.len());
    reveal_strlit("bounce-out");
    assert("shadow-drop"@.len() != "bounce-out"@.len());
    reveal_strlit("typewriter");
    assert("shadow-drop"@.len() != "typewriter"@.len());
    reveal_strlit("typewriter-reverse");
    assert("shadow-drop"@.len() != "typewriter-reverse"@.len());
    reveal_strlit("wave");
    assert("shadow-drop"@.len() != "wave"@.len());
    reveal_strlit("jello");
    assert("shadow-drop"@.len() != "jello"@.len());
    reveal_strlit("color-cycle");
    assert("shadow-drop"@[0] != "color-cycle"@[0]);
    reveal_strlit("rainbow");
    assert("shadow-drop"@.len() != "rainbow"@.len());
    reveal_strlit("gradient-flow");
    assert("shadow-drop"@.len() != "gradient-flow"@.len());
    reveal_strlit("rotate-in");
    assert("shadow-drop"@.len() != "rotate-in"@.len());
    reveal_strlit("rotate-out");
    assert("shadow-drop"@.len() != "rotate-out"@.len());
    reveal_strlit("shake");
    assert("shadow-drop"@.len() != "shake"@.len());
    reveal_strlit("wobble");
    assert("shadow-drop"@.len() != "wobble"@.len());
    reveal_strlit("vibrate");
    assert("shadow-drop"@.len() != "vibrate"@.len());
    reveal_strlit("heartbeat");
    assert("shadow-drop"@.len() != "heartbeat"@.len());
    reveal_strlit("flip-horizontal");
    assert("shadow-drop"@.len() != "flip-horizontal"@.len());
    reveal_strlit("flip-vertical");
    assert("shadow-drop"@.len() != "flip-vertical"@.len());
    reveal_strlit("swing");
    assert("shadow-drop"@.len() != "swing"@.len());
    reveal_strlit("sway");
    assert("shadow-drop"@.len() != "sway"@.len());
    reveal_strlit("roll-in");
    assert("shadow-drop"@.len() != "roll-in"@.len());
    reveal_strlit("roll-out");
    assert("shadow-drop"@.len() != "roll-out"@.len());
    reveal_strlit("puff-in");
    assert("shadow-drop"@.len() != "puff-in"@.len());
    reveal_strlit("puff-out");
    assert("shadow-drop"@.len() != "puff-out"@.len());
    reveal_strlit("slide-rotate-hor");
    assert("shadow-drop"@.len() != "slide-rotate-hor"@.len());
    reveal_strlit("slide-rotate-ver");
    assert("shadow-drop"@.len() != "slide-rotate-ver"@.len());
    reveal_strlit("flicker");
    assert("shadow-drop"@.len() != "flicker"@.len());
    reveal_strlit("tracking-in");
    assert("shadow-drop"@[0] != "tracking-in"@[0]);
    reveal_strlit("tracking-out");
    assert("shadow-drop"@.len() != "tracking-out"@.len());
    reveal_strlit("bounce-top");
    assert("shadow-drop"@.len() != "bounce-top"@.len());
    reveal_strlit("bounce-bottom");
    assert("shadow-drop"@.len() != "bounce-bottom"@.len());
    reveal_strlit("tilt-in");
    assert("shadow-drop"@.len() != "tilt-in"@.len());
    reveal_strlit("slide-out-top");
    assert("shadow-drop"@.len() != "slide-out-top"@.len());
    reveal_strlit("slide-out-bottom");
    assert("shadow-drop"@.len() != "slide-out-bottom"@.len());
    reveal_strlit("slide-out-left");
    assert("shadow-drop"@.len() != "slide-out-left"@.len());
    reveal_strlit("slide-out-right");
    assert("shadow-drop"@.len() != "slide-out-right"@.len());
    reveal_strlit("blink");
    assert("shadow-drop"@.len() != "blink"@.len());
    reveal_strlit("focus-in");
    assert("shadow-drop"@.len() != "focus-in"@.len());
    reveal_strlit("blur-out");
    assert("shadow-drop"@.len() != "blur-out"@.len());
}

proof fn lemma_named_49()
    ensures
        effect_named("shadow-pop"@) == Some(EffectKind::ShadowPop),
{
    reveal_strlit("shadow-pop");
    reveal_strlit("fade-in");
    assert("shadow-pop"@.len() != "fade-in"@.len());
    reveal_strlit("fade-out");
    assert("shadow-pop"@.len() != "fade-out"@.len());
    reveal_strlit("fade-in-out");
    assert("shadow-pop"@.len() != "fade-in-out"@.len());
    reveal_strlit("slide-in-top");
    assert("shadow-pop"@.len() != "slide-in-top"@.len());
    reveal_strlit("slide-in-bottom");
    assert("shadow-pop"@.len() != "slide-in-bottom"@.len());
    reveal_strlit("slide-in-left");
    assert("shadow-pop"@.len() != "slide-in-left"@.len());
    reveal_strlit("slide-in-right");
    assert("shadow-pop"@.len() != "slide-in-right"@.len());
    reveal_strlit("scale-up");
    assert("shadow-pop"@.len() != "scale-up"@.len());
    reveal_strlit("scale-down");
    assert("shadow-pop"@[1] != "scale-down"@[1]);
    reveal_strlit("pulse");
    assert("shadow-pop"@.len() != "pulse"@.len());
    reveal_strlit("bounce-in");
    assert("shadow-pop"@.len() != "bounce-in"@.len());
    reveal_strlit("bounce-out");
    assert("shadow-pop"@[0] != "bounce-out"@[0]);
    reveal_strlit("typewriter");
    assert("shadow-pop"@[0] != "typewriter"@[0]);
    reveal_strlit("typewriter-reverse");
    assert("shadow-pop"@.len() != "typewriter-reverse"@.len());
    reveal_strlit("wave");
    assert("shadow-pop"@.len() != "wave"@.len());
    reveal_strlit("jello");
    assert("shadow-pop"@.len() != "jello"@.len());
    reveal_strlit("color-cycle");
    assert("shadow-pop"@.len() != "color-cycle"@.len());
    reveal_strlit("rainbow");
    assert("shadow-pop"@.len() != "rainbow"@.len());
    reveal_strlit("gradient-flow");
    assert("shadow-pop"@.len() != "gradient-flow"@.len());
    reveal_strlit("rotate-in");
    assert("shadow-pop"@.len() != "rotate-in"@.len());
    reveal_strlit("rotate-out");
    assert("shadow-pop"@[0] != "rotate-out"@[0]);
    reveal_strlit("shake");
    assert("shadow-pop"@.len() != "shake"@.len());
    reveal_strlit("wobble");
    assert("shadow-pop"@.len() != "wobble"@.len());
    reveal_strlit("vibrate");
    assert("shadow-pop"@.len() != "vibrate"@.len());
    reveal_strlit("heartbeat");
    assert("shadow-pop"@.len() != "heartbeat"@.len());
    reveal_strlit("flip-horizontal");
    assert("shadow-pop"@.len() != "flip-horizontal"@.len());
    reveal_strlit("flip-vertical");
    assert("shadow-pop"@.len() != "flip-vertical"@.len());
    reveal_strlit("swing");
    assert("shadow-pop"@.len() != "swing"@.len());
    reveal_strlit("sway");
    assert("shadow-pop"@.len() != "sway"@.len());
    reveal_strlit("roll-in");
    assert("shadow-pop"@.len() != "roll-in"@.len());
    reveal_strlit("roll-out");
    assert("shadow-pop"@.len() != "roll-out"@.len());
    reveal_strlit("puff-in");
    assert("shadow-pop"@.len() != "puff-in"@.len());
    reveal_strlit("puff-out");
    assert("shadow-pop"@.len() != "puff-out"@.len());
    reveal_strlit("slide-rotate-hor");
    assert("shadow-pop"@.len() != "slide-rotate-hor"@.len());
    reveal_strlit("slide-rotate-ver");
    assert("shadow-pop"@.len() != "slide-rotate-ver"@.len());
    reveal_strlit("flicker");
    assert("shadow-pop"@.len() != "flicker"@.len());
    reveal_strlit("tracking-in");
    assert("shadow-pop"@.len() != "tracking-in"@.len());
    reveal_strlit("tracking-out");
    assert("shadow-pop"@.len() != "tracking-out"@.len());
    reveal_strlit("bounce-top");
    assert("shadow-pop"@[0] != "bounce-top"@[0]);
    reveal_strlit("bounce-bottom");
    assert("shadow-pop"@.len() != "bounce-bottom"@.len());
    reveal_strlit("tilt-in");
    assert("shadow-pop"@.len() != "tilt-in"@.len());
    reveal_strlit("slide-out-top");
    assert("shadow-pop"@.len() != "slide-out-top"@.len());
    reveal_strlit("slide-out-bottom");
    assert("shadow-pop"@.len() != "slide-out-bottom"@.len());
    reveal_strlit("slide-out-left");
    assert("shadow-pop"@.len() != "slide-out-left"@.len());
    reveal_strlit("slide-out-right");
    assert("shadow-pop"@.len() != "slide-out-right"@.len());
    reveal_strlit("blink");
    assert("shadow-pop"@.len() != "blink"@.len());
    reveal_strlit("focus-in");
    assert("shadow-pop"@.len() != "focus-in"@.len());
    reveal_strlit("blur-out");
    assert("shadow-pop"@.len() != "blur-out"@.len());
    reveal_strlit("shadow-drop");
    assert("shadow-pop"@.len() != "shadow-drop"@.len());
}

proof fn lemma_named_50()
    ensures
        effect_named("rotate-center"@) == Some(EffectKind::RotateCenter),
{
    reveal_strlit("rotate-center");
    reveal_strlit("fade-in");
    assert("rotate-center"@.len() != "fade-in"@.len());
    reveal_strlit("fade-out");
    assert("rotate-center"@.len() != "fade-out"@.len());
    reveal_strlit("fade-in-out");
    assert("rotate-center"@.len() != "fade-in-out"@.len());
    reveal_strlit("slide-in-top");
    assert("rotate-center"@.len() != "slide-in-top"@.len());
    reveal_strlit("slide-in-bottom");
    assert("rotate-center"@.len() != "slide-in-bottom"@.len());
    reveal_strlit("slide-in-left");
    assert("rotate-center"@[0] != "slide-in-left"@[0]);
    reveal_strlit("slide-in-right");
    assert("rotate-center"@.len() != "slide-in-right"@.len());
    reveal_strlit("scale-up");
    assert("rotate-center"@.len() != "scale-up"@.len());
    reveal_strlit("scale-down");
    assert("rotate-center"@.len() != "scale-down"@.len());
    reveal_strlit("pulse");
    assert("rotate-center"@.len() != "pulse"@.len());
    reveal_strlit("bounce-in");
    assert("rotate-center"@.len() != "bounce-in"@.len());
    reveal_strlit("bounce-out");
    assert("rotate-center"@.len() != "bounce-out"@.len());
    reveal_strlit("typewriter");
    assert("rotate-center"@.len() != "typewriter"@.len());
    reveal_strlit("typewriter-reverse");
    assert("rotate-center"@.len() != "typewriter-reverse"@.len());
    reveal_strlit("wave");
    assert("rotate-center"@.len() != "wave"@.len());
    reveal_strlit("jello");
    assert("rotate-center"@.len() != "jello"@.len());
    reveal_strlit("color-cycle");
    assert("rotate-center"@.len() != "color-cycle"@.len());
    reveal_strlit("rainbow");
    assert("rotate-center"@.len() != "rainbow"@.len());
    reveal_strlit("gradient-flow");
    assert("rotate-center"@[0] != "gradient-flow"@[0]);
    reveal_strlit("rotate-in");
    assert("rotate-center"@.len() != "rotate-in"@.len());
    reveal_strlit("rotate-out");
    assert("rotate-center"@.len() != "rotate-out"@.len());
    reveal_strlit("shake");
    assert("rotate-center"@.len() != "shake"@.len());
    reveal_strlit("wobble");
    assert("rotate-center"@.len() != "wobble"@.len());
    reveal_strlit("vibrate");
    assert("rotate-center"@.len() != "vibrate"@.len());
    reveal_strlit("heartbeat");
    assert("rotate-center"@.len() != "heartbeat"@.len());
    reveal_strlit("flip-horizontal");
    assert("rotate-center"@.len() != "flip-horizontal"@.len());
    reveal_strlit("flip-vertical");
    assert("rotate-center"@[0] != "flip-vertical"@[0]);
    reveal_strlit("swing");
    assert("rotate-center"@.len() != "swing"@.len());
    reveal_strlit("sway");
    assert("rotate-center"@.len() != "sway"@.len());
    reveal_strlit("roll-in");
    assert("rotate-center"@.len() != "roll-in"@.len());
    reveal_strlit("roll-out");
    assert("rotate-center"@.len() != "roll-out"@.len());
    reveal_strlit("puff-in");
    assert("rotate-center"@.len() != "puff-in"@.len());
    reveal_strlit("puff-out");
    assert("rotate-center"@.len() != "puff-out"@.len());
    reveal_strlit("slide-rotate-hor");
    assert("rotate-center"@.len() != "slide-rotate-hor"@.len());
    reveal_strlit("slide-rotate-ver");
    assert("rotate-center"@.len() != "slide-rotate-ver"@.len());
    reveal_strlit("flicker");
    assert("rotate-center"@.len() != "flicker"@.len());
    reveal_strlit("tracking-in");
    assert("rotate-center"@.len() != "tracking-in"@.len());
    reveal_strlit("tracking-out");
    assert("rotate-center"@.len() != "tracking-out"@.len());
    reveal_strlit("bounce-top");
    assert("rotate-center"@.len() != "bounce-top"@.len());
    reveal_strlit("bounce-bottom");
    assert("rotate-center"@[0] != "bounce-bottom"@[0]);
    reveal_strlit("tilt-in");
    assert("rotate-center"@.len() != "tilt-in"@.len());
    reveal_strlit("slide-out-top");
    assert("rotate-center"@[0] != "slide-out-top"@[0]);
    reveal_strlit("slide-out-bottom");
    assert("rotate-center"@.len() != "slide-out-bottom"@.len());
    reveal_strlit("slide-out-left");
    assert("rotate-center"@.len() != "slide-out-left"@.len());
    reveal_strlit("slide-out-right");
    assert("rotate-center"@.len() != "slide-out-right"@.len());
    reveal_strlit("blink");
    assert("rotate-center"@.len() != "blink"@.len());
    reveal_strlit("focus-in");
    assert("rotate-center"@.len() != "focus-in"@.len());
    reveal_strlit("blur-out");
    assert("rotate-center"@.len() != "blur-out"@.len());
    reveal_strlit("shadow-drop");
    assert("rotate-center"@.len() != "shadow-drop"@.len());
    reveal_strlit("shadow-pop");
    assert("rotate-center"@.len() != "shadow-pop"@.len());
}

/// The names of all effects, in a fixed order: exactly the accepted names, each
/// once (see `lemma_effect_names`).
pub fn list_effects() -> (r: Vec<&'static str>)
    ensures
        r@.map_values(|x: &'static str| x@) == effect_names(),
{
    let mut r: Vec<&'static str> = Vec::new();
    r.push(FadeIn.name());
    r.push(FadeOut.name());
    r.push(FadeInOut.name());
    r.push(SlideInTop.name());
    r.push(SlideInBottom.name());
    r.push(SlideInLeft.name());
    r.push(SlideInRight.name());
    r.push(ScaleUp.name());
    r.push(ScaleDown.name());
    r.push(Pulse.name());
    r.push(BounceIn.name());
    r.push(BounceOut.name());
    r.push(Typewriter.name());
    r.push(TypewriterReverse.name());
    r.push(Wave.name());
    r.push(Jello.name());
    r.push(ColorCycle.name());
    r.push(Rainbow.name());
    r.push(GradientFlow.name());
    r.push(RotateIn.name());
    r.push(RotateOut.name());
    r.push(Shake.name());
    r.push(Wobble.name());
    r.push(Vibrate.name());
    r.push(Heartbeat.name());
    r.push(FlipHorizontal.name());
    r.push(FlipVertical.name());
    r.push(Swing.name());
    r.push(Sway.name());
    r.push(RollIn.name());
    r.push(RollOut.name());
    r.push(PuffIn.name());
    r.push(PuffOut.name());
    r.push(SlideRotateHor.name());
    r.push(SlideRotateVer.name());
    r.push(Flicker.name());
    r.push(TrackingIn.name());
    r.push(TrackingOut.name());
    r.push(BounceTop.name());
    r.push(BounceBottom.name());
    r.push(TiltIn.name());
    r.push(SlideOutTop.name());
    r.push(SlideOutBottom.name());
    r.push(SlideOutLeft.name());
    r.push(SlideOutRight.name());
    r.push(Blink.name());
    r.push(FocusIn.name());
    r.push(BlurOut.name());
    r.push(ShadowDrop.name());
    r.push(ShadowPop.name());
    r.push(RotateCenter.name());
    proof {
        assert(r@.map_values(|x: &'static str| x@) =~= effect_names());
    }
    r
}
} // verus!
