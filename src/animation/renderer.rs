//! One playback: the frame drawn at each tick, and the decisions of the render loop.
use vstd::prelude::*;
use crate::animation::easing::{curve, unit, EasingKind};
use crate::animation::effects::{effect_frame, EffectKind, EffectResult, EffectView};
use crate::animation::timeline::{progress_at, Timeline};
use crate::color::apply::{apply_color_to_line, apply_gradient_to_text, colored_line_ok, gradient_ok};
use crate::color::{engine_colors, palette_index, ColorEngine, ColorMode};
use crate::color::palette::palette_at;
use crate::parser::color::Color;
use crate::parser::gradient::gradient_color;
use crate::utils::ascii::{bounded, visible_in, AsciiArt};
use crate::utils::fixed::ONE;
use crate::utils::text::{
    chars_of, is_space, join_lines, join_rows, lines_of, rows, split_lines, string_of, total_len,
};

verus! {

/// `out` is the text with the colours spread across it, or the text itself when
/// it has no characters or there are no colours (what `apply_gradient_to_text`
/// does).
pub open spec fn text_gradient_ok(s: Seq<char>, cs: Seq<Color>, out: Seq<char>) -> bool {
    if total_len(lines_of(s)) == 0 || cs.len() == 0 {
        out == s
    } else {
        gradient_ok(lines_of(s), cs, out)
    }
}

/// The sequence turned left by `k` places.
pub open spec fn rotate_left<A>(cs: Seq<A>, k: int) -> Seq<A> {
    cs.subrange(k, cs.len() as int) + cs.take(k)
}

/// `out` is every line of the text in the one colour `c`, joined with line feeds.
pub open spec fn solid_ok(s: Seq<char>, c: Color, out: Seq<char>) -> bool {
    exists|rs: Seq<Seq<char>>|
        rs.len() == lines_of(s).len() && (forall|y: int|
            0 <= y < rs.len() ==> colored_line_ok(lines_of(s)[y], seq![c], #[trigger] rs[y]))
            && out == join_lines(rs)
}

/// Twice `n`, at most `usize::MAX`.
pub open spec fn doubled(n: int) -> int {
    if 2 * n > usize::MAX {
        usize::MAX as int
    } else {
        2 * n
    }
}

/// The gradient-flow colours: twice as many samples as cells, turned left by the
/// progress's share of them, cut to one per cell.
pub open spec fn flow_colors(cs: Seq<Color>, n: int, progress: int) -> Seq<Color> {
    if cs.len() == 0 {
        cs
    } else {
        let off = (progress * cs.len() / ONE as int) % cs.len() as int;
        let r = rotate_left(cs, off);
        if n < r.len() {
            r.take(n)
        } else {
            r
        }
    }
}

/// `out` is how a frame's text `s` is coloured: rainbow and colour-cycle spread
/// the colours over the visible cells, gradient-flow spreads a turning window of
/// them, and other effects paint everything in the colour for the progress.
pub open spec fn colored_ok(
    mode: ColorMode,
    effect: EffectKind,
    s: Seq<char>,
    progress: int,
    out: Seq<char>,
) -> bool {
    let n = visible_in(s) as int;
    if effect == EffectKind::Rainbow || effect == EffectKind::ColorCycle {
        text_gradient_ok(s, engine_colors(mode, n), out)
    } else if effect == EffectKind::GradientFlow {
        text_gradient_ok(s, flow_colors(engine_colors(mode, doubled(n)), n, progress), out)
    } else {
        match mode {
            ColorMode::Palette(p) => solid_ok(s, palette_at(p@, palette_index(progress, p@.len() as int)), out),
            ColorMode::Gradient(g) => solid_ok(s, gradient_color(g@, progress), out),
            ColorMode::NoColor => text_gradient_ok(
                s,
                engine_colors(mode, if n > 10 { n } else { 10 }),
                out,
            ),
        }
    }
}

/// Plays art with an effect, an easing curve and a colour engine.
pub struct Renderer {
    ascii_art: AsciiArt,
    timeline: Timeline,
    effect: EffectKind,
    easing: EasingKind,
    color_engine: ColorEngine,
}

impl Renderer {
    pub closed spec fn spec_art(&self) -> Seq<Seq<char>> {
        self.ascii_art@
    }

    pub closed spec fn spec_effect(&self) -> EffectKind {
        self.effect
    }

    pub closed spec fn spec_easing(&self) -> EasingKind {
        self.easing
    }

    pub closed spec fn spec_mode(&self) -> ColorMode {
        self.color_engine.spec_mode()
    }

    pub closed spec fn spec_timeline(&self) -> Timeline {
        self.timeline
    }

    /// A renderer for art no larger than `MAX_SIDE` either way.
    pub fn new(
        ascii_art: AsciiArt,
        duration_ms: u64,
        fps: u32,
        effect: EffectKind,
        easing: EasingKind,
        color_engine: ColorEngine,
    ) -> (r: Self)
        requires
            bounded(ascii_art@),
        ensures
            r.spec_art() == ascii_art@,
            r.spec_effect() == effect,
            r.spec_easing() == easing,
            r.spec_mode() == color_engine.spec_mode(),
            r.spec_timeline().spec_duration() == duration_ms,
            r.spec_timeline().spec_fps() == fps,
            r.wf(),
    {
        Renderer {
            ascii_art,
            timeline: Timeline::new(duration_ms, fps),
            effect,
            easing,
            color_engine,
        }
    }

    /// The art is within the bounds effects take.
    pub closed spec fn wf(&self) -> bool {
        bounded(self.ascii_art@)
    }

    /// The timeline a playback of this renderer uses.
    pub fn timeline(&self) -> (r: &Timeline)
        ensures
            *r == self.spec_timeline(),
    {
        &self.timeline
    }

    /// Colours a frame's text for linear progress `progress`.
    pub fn apply_colors(&self, text: &str, progress: i64) -> (r: String)
        requires
            0 <= progress <= ONE,
        ensures
            colored_ok(self.spec_mode(), self.spec_effect(), text@, progress as int, r@),
    {
        let chars = chars_of(text);
        let n = count_visible(&chars);
        if self.effect == EffectKind::Rainbow || self.effect == EffectKind::ColorCycle {
            let colors = self.color_engine.get_colors(n);
            return apply_gradient_to_text(text, colors.as_slice());
        }
        if self.effect == EffectKind::GradientFlow {
            let m: usize = if n > usize::MAX / 2 {
                usize::MAX
            } else {
                2 * n
            };
            let colors = self.color_engine.get_colors(m);
            let flow = flow(&colors, n, progress);
            return apply_gradient_to_text(text, flow.as_slice());
        }
        match self.color_engine.color_at(progress) {
            Some(c) => {
                solid(&chars, c)
            },
            None => {
                let colors = self.color_engine.get_colors(if n > 10 {
                    n
                } else {
                    10
                });
                apply_gradient_to_text(text, colors.as_slice())
            },
        }
    }

    /// The frame drawn at linear progress `progress`: the effect applied at the eased
    /// progress, its text coloured when the engine has colours.
    pub fn frame(&self, progress: i64) -> (r: EffectResult)
        requires
            self.wf(),
            unit(progress as int),
        ensures
            ({
                let v = effect_frame(
                    self.spec_effect(),
                    self.spec_art(),
                    curve(self.spec_easing(), progress as int),
                );
                &&& r@ == EffectView { text: r@.text, ..v }
                &&& if self.spec_mode() is NoColor {
                    r@.text == v.text
                } else {
                    colored_ok(self.spec_mode(), self.spec_effect(), v.text, progress as int, r@.text)
                }
            }),
    {
        let eased = self.easing.ease(progress);
        let result = self.effect.apply(&self.ascii_art, eased);
        if self.color_engine.has_colors() {
            let text = self.apply_colors(result.text.as_str(), progress);
            EffectResult { text, ..result }
        } else {
            result
        }
    }
}

fn count_visible(v: &Vec<char>) -> (r: usize)
    ensures
        r == visible_in(v@),
{
    let mut n: usize = 0;
    let mut i: usize = 0;
    while i < v.len()
        invariant
            i <= v@.len(),
            n == visible_in(v@.take(i as int)),
            n <= i,
        decreases v@.len() - i,
    {
        proof {
            crate::utils::ascii::lemma_visible_in_step(v@, i as int);
        }
        if !is_space(v[i]) {
            n = n + 1;
        }
        i = i + 1;
    }
    proof {
        assert(v@.take(i as int) =~= v@);
    }
    n
}

fn flow(colors: &Vec<Color>, n: usize, progress: i64) -> (r: Vec<Color>)
    requires
        0 <= progress <= ONE,
    ensures
        r@ == flow_colors(colors@, n as int, progress as int),
{
    let len = colors.len();
    if len == 0 {
        return Vec::new();
    }
    proof {
        assert(0 <= progress * len <= ONE * len) by (nonlinear_arith)
            requires
                0 <= progress <= ONE,
                len >= 0,
        ;
        crate::utils::fixed::lemma_div_bounds(progress * len, ONE as int, 0, len as int);
    }
    let off: usize = (((progress as u128) * (len as u128) / (ONE as u128)) as usize) % len;
    let mut r: Vec<Color> = Vec::new();
    let mut i: usize = off;
    while i < len
        invariant
            off <= i <= len == colors@.len(),
            r@ == colors@.subrange(off as int, i as int),
        decreases len - i,
    {
        r.push(colors[i]);
        i = i + 1;
        proof {
            assert(r@ =~= colors@.subrange(off as int, i as int));
        }
    }
    let mut j: usize = 0;
    while j < off
        invariant
            j <= off < len == colors@.len(),
            r@ == colors@.subrange(off as int, len as int) + colors@.take(j as int),
        decreases off - j,
    {
        r.push(colors[j]);
        j = j + 1;
        proof {
            assert(r@ =~= colors@.subrange(off as int, len as int) + colors@.take(j as int));
        }
    }
    if n < r.len() {
        r.truncate(n);
    }
    proof {
        assert(r@ =~= flow_colors(colors@, n as int, progress as int));
    }
    r
}

fn solid(text: &Vec<char>, c: Color) -> (r: String)
    ensures
        solid_ok(text@, c, r@),
{
    let lines = split_lines(text);
    let one = vec![c];
    let mut out: Vec<Vec<char>> = Vec::new();
    let mut i: usize = 0;
    while i < lines.len()
        invariant
            i <= lines@.len(),
            one@ == seq![c],
            out@.len() == i,
            forall|k: int| 0 <= k < i ==> colored_line_ok(lines@[k]@, seq![c], #[trigger] out@[k]@),
        decreases lines@.len() - i,
    {
        let line = string_of(&lines[i]);
        let colored_text = apply_color_to_line(line.as_str(), one.as_slice());
        out.push(chars_of(colored_text.as_str()));
        i = i + 1;
    }
    proof {
        let rs = rows(out@);
        assert(forall|y: int| 0 <= y < rs.len() ==> #[trigger] rs[y] == out@[y]@);
        assert(solid_ok(text@, c, join_lines(rs)));
    }
    string_of(&join_rows(&out))
}

/// Longest uninterrupted wait, in milliseconds, between two looks at the
/// cancellation flag while sleeping between frames.
pub const POLL_MS: u64 = 5;

/// Where a playback stands.
#[derive(Clone, Copy, Debug, PartialEq, Eq, Structural)]
pub enum PlayState {
    NotStarted,
    Running,
    Completed,
    Cancelled,
}

/// How a playback ended.
#[derive(Clone, Copy, Debug, PartialEq, Eq, Structural)]
pub enum Outcome {
    Completed,
    Cancelled,
}

/// The decisions of the render loop, apart from the waiting and painting that its
/// driver does: checks for cancellation, frame progress, completion, and pacing.
pub struct Playback {
    timeline: Timeline,
    state: PlayState,
}

impl Playback {
    pub closed spec fn spec_state(&self) -> PlayState {
        self.state
    }

    pub closed spec fn spec_timeline(&self) -> Timeline {
        self.timeline
    }

    /// The timeline never runs past its last frame.
    pub open spec fn wf(&self) -> bool {
        self.spec_timeline().wf()
    }

    /// A playback of `duration_ms` at `fps`, not started.
    pub fn new(duration_ms: u64, fps: u32) -> (r: Self)
        ensures
            r.wf(),
            r.spec_state() == PlayState::NotStarted,
            r.spec_timeline().spec_current() == 0,
            r.spec_timeline().spec_total() == Timeline::new_total(duration_ms, fps),
            r.spec_timeline().spec_fps() == fps,
    {
        Playback { timeline: Timeline::new(duration_ms, fps), state: PlayState::NotStarted }
    }

    /// Starts at `now_ms`, from the first frame.
    pub fn start(&mut self, now_ms: u64)
        requires
            old(self).wf(),
        ensures
            final(self).wf(),
            final(self).spec_state() == PlayState::Running,
            final(self).spec_timeline().spec_current() == 0,
            final(self).spec_timeline().spec_total() == old(self).spec_timeline().spec_total(),
            final(self).spec_timeline().spec_fps() == old(self).spec_timeline().spec_fps(),
    {
        self.timeline.start(now_ms);
        self.state = PlayState::Running;
    }

    /// A check point: a cancellation seen while running ends the playback as
    /// cancelled. Says whether the playback goes on.
    pub fn checkpoint(&mut self, cancelled: bool) -> (go_on: bool)
        requires
            old(self).wf(),
        ensures
            final(self).wf(),
            final(self).spec_timeline() == old(self).spec_timeline(),
            final(self).spec_state() == if old(self).spec_state() == PlayState::Running && cancelled {
                PlayState::Cancelled
            } else {
                old(self).spec_state()
            },
            go_on == (final(self).spec_state() == PlayState::Running),
    {
        if self.state == PlayState::Running && cancelled {
            self.state = PlayState::Cancelled;
        }
        self.state == PlayState::Running
    }

    /// Linear progress of the current frame.
    pub fn progress(&self) -> (r: i64)
        requires
            self.wf(),
        ensures
            r == progress_at(
                self.spec_timeline().spec_current(),
                self.spec_timeline().spec_total(),
            ),
            0 <= r <= ONE,
    {
        self.timeline.progress()
    }

    /// After a frame is painted: ends the playback as completed if that was the last
    /// frame, else moves to the next. Says whether the playback goes on.
    pub fn after_paint(&mut self) -> (go_on: bool)
        requires
            old(self).wf(),
            old(self).spec_state() == PlayState::Running,
        ensures
            final(self).wf(),
            go_on == (old(self).spec_timeline().spec_current() < old(
                self,
            ).spec_timeline().spec_total()),
            go_on ==> final(self).spec_state() == PlayState::Running
                && final(self).spec_timeline().spec_current() == old(
                self,
            ).spec_timeline().spec_current() + 1,
            !go_on ==> final(self).spec_state() == PlayState::Completed,
            final(self).spec_timeline().spec_total() == old(self).spec_timeline().spec_total(),
            final(self).spec_timeline().spec_fps() == old(self).spec_timeline().spec_fps(),
    {
        if self.timeline.is_complete() {
            self.state = PlayState::Completed;
            return false;
        }
        self.timeline.next_frame();
        true
    }

    /// Milliseconds left to wait after a frame that took `elapsed_ms`: the frame
    /// interval minus the time spent, or none if the frame overran it.
    pub fn wait_budget(&self, elapsed_ms: u64) -> (r: u64)
        requires
            self.spec_timeline().spec_fps() > 0,
        ensures
            r == if 1000int / (self.spec_timeline().spec_fps() as int) > elapsed_ms {
                1000int / (self.spec_timeline().spec_fps() as int) - elapsed_ms
            } else {
                0
            },
    {
        let d = self.timeline.frame_duration();
        if d > elapsed_ms {
            d - elapsed_ms
        } else {
            0
        }
    }

    /// How the playback ended, once it has.
    pub fn outcome(&self) -> (r: Option<Outcome>)
        ensures
            r == match self.spec_state() {
                PlayState::Completed => Some(Outcome::Completed),
                PlayState::Cancelled => Some(Outcome::Cancelled),
                _ => None,
            },
    {
        match self.state {
            PlayState::Completed => Some(Outcome::Completed),
            PlayState::Cancelled => Some(Outcome::Cancelled),
            _ => None,
        }
    }
}

/// The next slice of a wait of `remaining_ms`: never longer than `POLL_MS`, so the
/// cancellation flag is looked at again within that time.
pub fn wait_slice(remaining_ms: u64) -> (r: u64)
    ensures
        r == if remaining_ms < POLL_MS {
            remaining_ms
        } else {
            POLL_MS
        },
{
    if remaining_ms < POLL_MS {
        remaining_ms
    } else {
        POLL_MS
    }
}

/// A cancellation seen at any check point of a running playback ends it as
/// cancelled, and it stays so at every later check point; a wait is cut into
/// slices of at most `POLL_MS` that use it up, so a cancellation during the wait is
/// seen within one slice.
pub proof fn lemma_cancellation(p: PlayState, later: bool, remaining: u64)
    ensures
        p == PlayState::Running ==> after_check(p, true) == PlayState::Cancelled,
        after_check(PlayState::Cancelled, later) == PlayState::Cancelled,
        remaining > 0 ==> 0 < (if remaining < POLL_MS { remaining } else { POLL_MS }) <= POLL_MS,
{
}

/// The state after a check point that saw `cancelled`.
pub open spec fn after_check(p: PlayState, cancelled: bool) -> PlayState {
    if p == PlayState::Running && cancelled {
        PlayState::Cancelled
    } else {
        p
    }
}

} // verus!
