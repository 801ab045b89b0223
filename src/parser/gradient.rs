//! Linear gradients: colour stops read from CSS `linear-gradient(...)` syntax.
use vstd::prelude::*;
use vstd::string::*;
use crate::error::PigletError;
use crate::parser::color::{css_rgb, Color};
use crate::parser::duration::{digits_end, digits_value, is_digit, lemma_pow10_bound, pow10};
use crate::utils::fixed::{HALF, ONE};
use crate::color::palette::{css_color, white};
use crate::utils::text::{
    chars_of, is_space, is_white, matches_at, rows, slice_chars, string_of, trim, trim_chars,
};

verus! {

/// Whole digits beyond this many make a number unreadable.
pub const WHOLE_DIGITS: usize = 12;

/// Fraction digits kept when reading a number (the precision of `ONE`).
pub const KEPT_DIGITS: usize = 4;

/// Position of the first `sep` at or after `from`, or `s.len()`.
pub open spec fn sep_end(s: Seq<char>, from: int, sep: char) -> int
    decreases s.len() - from,
{
    if from >= s.len() {
        s.len() as int
    } else if s[from] == sep {
        from
    } else {
        sep_end(s, from + 1, sep)
    }
}

/// The pieces of `s` from `from` on between separators `sep`; there is always at
/// least one, possibly empty.
pub open spec fn pieces_from(s: Seq<char>, from: int, sep: char) -> Seq<Seq<char>>
    decreases s.len() - from,
{
    let e = sep_end(s, from, sep);
    if 0 <= from <= e < s.len() {
        seq![s.subrange(from, e)] + pieces_from(s, e + 1, sep)
    } else if 0 <= from <= s.len() {
        seq![s.subrange(from, s.len() as int)]
    } else {
        seq![]
    }
}

/// The pieces of `s` between the separators `sep`.
pub open spec fn pieces(s: Seq<char>, sep: char) -> Seq<Seq<char>> {
    pieces_from(s, 0, sep)
}

proof fn lemma_sep_end(s: Seq<char>, from: int, sep: char)
    requires
        0 <= from <= s.len(),
    ensures
        from <= sep_end(s, from, sep) <= s.len(),
        sep_end(s, from, sep) < s.len() ==> s[sep_end(s, from, sep)] == sep,
    decreases s.len() - from,
{
    if from < s.len() && s[from] != sep {
        lemma_sep_end(s, from + 1, sep);
    }
}

/// Splits `s` at every `sep`.
pub fn split_at_char(s: &Vec<char>, sep: char) -> (r: Vec<Vec<char>>)
    ensures
        rows(r@) == pieces(s@, sep),
{
    let n = s.len();
    let mut r: Vec<Vec<char>> = Vec::new();
    let mut from: usize = 0;
    loop
        invariant
            n == s@.len(),
            from <= n,
            rows(r@) + pieces_from(s@, from as int, sep) == pieces(s@, sep),
        decreases n - from,
    {
        let mut piece: Vec<char> = Vec::new();
        let mut e: usize = from;
        while e < n && s[e] != sep
            invariant
                from <= e <= n,
                n == s@.len(),
                sep_end(s@, from as int, sep) == sep_end(s@, e as int, sep),
                piece@ == s@.subrange(from as int, e as int),
            decreases n - e,
        {
            piece.push(s[e]);
            e = e + 1;
        }
        proof {
            assert(sep_end(s@, e as int, sep) == e);
            lemma_sep_end(s@, from as int, sep);
        }
        let ghost old_r = rows(r@);
        r.push(piece);
        if e < n {
            proof {
                assert(rows(r@) == old_r + seq![s@.subrange(from as int, e as int)]);
                assert(rows(r@) + pieces_from(s@, e + 1, sep) =~= old_r + pieces_from(
                    s@,
                    from as int,
                    sep,
                ));
            }
            from = e + 1;
        } else {
            proof {
                assert(rows(r@) == old_r + seq![s@.subrange(from as int, n as int)]);
                assert(rows(r@) =~= old_r + pieces_from(s@, from as int, sep));
            }
            return r;
        }
    }
}

/// Every character is an ASCII digit (vacuously for none).
pub open spec fn all_digits(d: Seq<char>) -> bool {
    forall|q: int| 0 <= q < d.len() ==> is_digit(#[trigger] d[q])
}

/// `s` read as a decimal number (optional sign, digits, optional point and digits,
/// at least one digit, at most `WHOLE_DIGITS` before the point), in fixed point,
/// fraction digits past the fourth dropped.
pub open spec fn fixed_of(s: Seq<char>) -> Option<int> {
    let signed = s.len() > 0 && (s[0] == '-' || s[0] == '+');
    let neg = s.len() > 0 && s[0] == '-';
    let body = if signed {
        s.drop_first()
    } else {
        s
    };
    let i = digits_end(body, 0);
    let w = body.take(i);
    let rest = body.subrange(i, body.len() as int);
    let frac = if rest.len() == 0 {
        Some(rest)
    } else if rest[0] == '.' && all_digits(rest.drop_first()) {
        Some(rest.drop_first())
    } else {
        None
    };
    match frac {
        None => None,
        Some(f) => if w.len() + f.len() == 0 || w.len() > WHOLE_DIGITS {
            None
        } else {
            let k = if f.len() > KEPT_DIGITS {
                KEPT_DIGITS as nat
            } else {
                f.len()
            };
            let mag = digits_value(w) * ONE as nat + digits_value(f.take(k as int)) * ONE as nat
                / pow10(k);
            Some(
                if neg {
                    -mag
                } else {
                    mag as int
                },
            )
        },
    }
}

proof fn lemma_digits_value_bound(d: Seq<char>)
    requires
        forall|q: int| 0 <= q < d.len() ==> is_digit(#[trigger] d[q]),
    ensures
        digits_value(d) < pow10(d.len()),
    decreases d.len(),
{
    if d.len() > 0 {
        lemma_digits_value_bound(d.drop_last());
    }
}

proof fn lemma_pow10_12(k: nat)
    requires
        k <= 12,
    ensures
        pow10(k) <= 1_000_000_000_000,
{
    crate::parser::duration::lemma_pow10_mono(k, 12);
    reveal_with_fuel(pow10, 13);
}

proof fn lemma_digits_end_shift(s: Seq<char>, start: int, q: int)
    requires
        0 <= start <= s.len(),
        0 <= q <= s.len() - start,
    ensures
        digits_end(s.subrange(start, s.len() as int), q) == digits_end(s, start + q) - start,
    decreases s.len() - start - q,
{
    if q < s.len() - start {
        lemma_digits_end_shift(s, start, q + 1);
    }
}

proof fn lemma_digits_end_bounds(s: Seq<char>, from: int)
    requires
        0 <= from <= s.len(),
    ensures
        from <= digits_end(s, from) <= s.len(),
        forall|q: int| from <= q < digits_end(s, from) ==> is_digit(#[trigger] s[q]),
        digits_end(s, from) < s.len() ==> !is_digit(s[digits_end(s, from)]),
    decreases s.len() - from,
{
    if from < s.len() && is_digit(s[from]) {
        lemma_digits_end_bounds(s, from + 1);
    }
}

fn scan_digits(s: &Vec<char>, from: usize) -> (r: usize)
    requires
        from <= s@.len(),
    ensures
        r == digits_end(s@, from as int),
{
    let mut i = from;
    while i < s.len() && '0' <= s[i] && s[i] <= '9'
        invariant
            from <= i <= s@.len(),
            digits_end(s@, from as int) == digits_end(s@, i as int),
        decreases s@.len() - i,
    {
        i = i + 1;
    }
    i
}

/// The value of the first `min(to - from, limit)` digits of `s[from..to]`.
fn digits_num(s: &Vec<char>, from: usize, to: usize, limit: usize) -> (r: u64)
    requires
        from <= to <= s@.len(),
        limit <= WHOLE_DIGITS,
        forall|q: int| from <= q < to ==> is_digit(#[trigger] s@[q]),
    ensures
        r == digits_value(s@.subrange(from as int, to as int).take(if to - from > limit { limit as int } else { to - from })),
        r < pow10(if to - from > limit { limit as nat } else { (to - from) as nat }),
{
    let ghost d = s@.subrange(from as int, to as int);
    let m: usize = if to - from > limit {
        limit
    } else {
        to - from
    };
    let mut v: u64 = 0;
    let mut c: usize = 0;
    while c < m
        invariant
            c <= m <= limit <= WHOLE_DIGITS,
            m <= to - from,
            from <= to <= s@.len(),
            d == s@.subrange(from as int, to as int),
            forall|q: int| from <= q < to ==> is_digit(#[trigger] s@[q]),
            v == digits_value(d.take(c as int)),
            v < pow10(c as nat),
        decreases m - c,
    {
        proof {
            assert(d.take(c + 1).drop_last() =~= d.take(c as int));
            lemma_pow10_12(c as nat);
            assert(d[c as int] == s@[from + c]);
            assert(is_digit(s@[from + c]));
        }
        v = v * 10 + (s[from + c] as u32 - '0' as u32) as u64;
        c = c + 1;
    }
    v
}

/// Reads a decimal number in fixed point.
#[verifier::rlimit(50)]
pub fn parse_fixed(s: &Vec<char>) -> (r: Option<i64>)
    ensures
        match fixed_of(s@) {
            Some(x) => r == Some(x as i64) && -20_000_000_000_000_000 <= x <= 20_000_000_000_000_000,
            None => r is None,
        },
{
    let n = s.len();
    let signed = n > 0 && (s[0] == '-' || s[0] == '+');
    let neg = n > 0 && s[0] == '-';
    let start: usize = if signed {
        1
    } else {
        0
    };
    let ghost body = s@.subrange(start as int, n as int);
    proof {
        if signed {
            assert(body =~= s@.drop_first());
        } else {
            assert(body =~= s@);
        }
    }
    let i = scan_digits(s, start);
    proof {
        lemma_digits_end_shift(s@, start as int, 0);
        lemma_digits_end_bounds(s@, start as int);
    }
    let wl = i - start;
    let ghost w = body.take(wl as int);
    let ghost rest = body.subrange(wl as int, body.len() as int);
    proof {
        assert(w =~= s@.subrange(start as int, i as int));
        assert(rest =~= s@.subrange(i as int, n as int));
    }
    let mut fl: usize = 0;
    let mut frac: u64 = 0;
    let mut k: usize = 0;
    if i < n {
        if s[i] != '.' {
            return None;
        }
        let j = scan_digits(s, i + 1);
        proof {
            lemma_digits_end_bounds(s@, i + 1);
        }
        if j != n {
            proof {
                assert(rest.drop_first()[j - i - 1] == s@[j as int]);
            }
            return None;
        }
        proof {
            assert(rest.drop_first() =~= s@.subrange(i + 1, n as int));
        }
        fl = n - i - 1;
        k = if fl > KEPT_DIGITS {
            KEPT_DIGITS
        } else {
            fl
        };
        frac = digits_num(s, i + 1, n, KEPT_DIGITS);
    } else {
        proof {
            assert(rest =~= seq![]);
        }
    }
    if wl + fl == 0 || wl > WHOLE_DIGITS {
        return None;
    }
    let whole = digits_num(s, start, i, WHOLE_DIGITS);
    let mut scale: u64 = 1;
    let mut q: usize = 0;
    while q < k
        invariant
            q <= k <= KEPT_DIGITS,
            scale == pow10(q as nat),
        decreases k - q,
    {
        proof {
            lemma_pow10_bound(q as nat);
        }
        scale = scale * 10;
        q = q + 1;
    }
    proof {
        lemma_pow10_bound(k as nat);
        crate::parser::duration::lemma_pow10_mono(k as nat, 4);
        reveal_with_fuel(pow10, 5);
        lemma_pow10_12(wl as nat);
        assert(s@.subrange(start as int, i as int).take(wl as int) =~= w);
        if i < n {
            assert(s@.subrange(i + 1, n as int) =~= rest.drop_first());
        } else {
            assert(k == 0);
        }
        assert(frac * 10000 <= 10000 * 10000) by (nonlinear_arith)
            requires
                frac < pow10(k as nat),
                pow10(k as nat) <= 10000,
        ;
        assert(whole * 10000 <= 1_000_000_000_000 * 10000) by (nonlinear_arith)
            requires
                whole < 1_000_000_000_000,
        ;
        crate::utils::fixed::lemma_div_bounds((frac * 10000) as int, scale as int, 0, 10000);
    }
    let mag: u64 = whole * 10000 + frac * 10000 / scale;
    if neg {
        Some(-(mag as i64))
    } else {
        Some(mag as i64)
    }
}

/// `s` with every trailing `deg` removed.
pub open spec fn strip_deg(s: Seq<char>) -> Seq<char>
    decreases s.len(),
{
    let d = "deg"@;
    if d.len() > 0 && s.len() >= d.len() && s.subrange(s.len() - d.len(), s.len() as int) == d {
        strip_deg(s.subrange(0, s.len() - d.len()))
    } else {
        s
    }
}

/// `s` begins with `p`.
pub open spec fn starts_with(s: Seq<char>, p: Seq<char>) -> bool {
    s.len() >= p.len() && s.take(p.len() as int) == p
}

/// `s` ends with `p`.
pub open spec fn ends_with(s: Seq<char>, p: Seq<char>) -> bool {
    s.len() >= p.len() && s.subrange(s.len() - p.len(), s.len() as int) == p
}

/// The angle (fixed-point degrees) a `to <side>` direction names; 180 for others.
pub open spec fn direction_angle(f: Seq<char>) -> int {
    if f == "to right"@ {
        90 * ONE
    } else if f == "to left"@ {
        270 * ONE
    } else if f == "to top"@ {
        0
    } else {
        180 * ONE
    }
}

/// The angle the first part gives and the parts that are colour stops.
pub open spec fn angle_and_stops(parts: Seq<Seq<char>>) -> (int, Seq<Seq<char>>) {
    let first = parts[0];
    if ends_with(first, "deg"@) {
        let a = match fixed_of(trim(strip_deg(first))) {
            Some(v) => v,
            None => 180 * ONE,
        };
        (a, parts.drop_first())
    } else if starts_with(first, "to "@) {
        (direction_angle(first), parts.drop_first())
    } else {
        (180 * ONE, parts)
    }
}

/// Position of the last `c` in `s`, or -1.
pub open spec fn last_of(s: Seq<char>, c: char) -> int
    decreases s.len(),
{
    if s.len() == 0 {
        -1
    } else if s.last() == c {
        s.len() - 1
    } else {
        last_of(s.drop_last(), c)
    }
}

/// Position of the last whitespace character in `s`, or -1.
pub open spec fn last_white(s: Seq<char>) -> int
    decreases s.len(),
{
    if s.len() == 0 {
        -1
    } else if is_white(s.last()) {
        s.len() - 1
    } else {
        last_white(s.drop_last())
    }
}

/// Stop `i` of `count` sits at `i / (count - 1)` unless it gives a position.
pub open spec fn default_position(i: int, count: int) -> int {
    i * ONE / (if count - 1 > 1 {
        count - 1
    } else {
        1
    })
}

/// The colour text and position of stop `i` of `count`: a trailing `<number>%`
/// after whitespace sets the position, and the text before that whitespace is the
/// colour.
pub open spec fn stop_of(p: Seq<char>, i: int, count: int) -> (Seq<char>, int) {
    let d = default_position(i, count);
    let pct = last_of(p, '%');
    if pct >= 0 && last_white(p.take(pct)) >= 0 {
        let sp = last_white(p.take(pct));
        let pos = match fixed_of(trim(p.subrange(sp + 1, pct))) {
            Some(v) => v / 100,
            None => d,
        };
        (trim(p.take(sp)), pos)
    } else {
        (p, d)
    }
}

/// What a gradient string says before any colour is read: the colour texts with
/// their positions, and the angle; `None` if it is not
/// `linear-gradient(<parts>)` or names no colour stop.
pub open spec fn gradient_parts(s: Seq<char>) -> Option<(Seq<(Seq<char>, int)>, int)> {
    let t = trim(s);
    let pre = "linear-gradient("@;
    if !(starts_with(t, pre) && t.len() > pre.len() && t.last() == ')') {
        None
    } else {
        let content = t.subrange(pre.len() as int, t.len() - 1);
        let parts = pieces(content, ',').map_values(|x: Seq<char>| trim(x));
        let (angle, cs) = angle_and_stops(parts);
        if cs.len() == 0 {
            None
        } else {
            Some((Seq::new(cs.len(), |i: int| stop_of(cs[i], i, cs.len() as int)), angle))
        }
    }
}

fn last_of_exec(v: &Vec<char>, c: char) -> (r: Option<usize>)
    ensures
        match r {
            Some(k) => k == last_of(v@, c),
            None => last_of(v@, c) == -1,
        },
{
    let mut i: usize = v.len();
    proof {
        assert(v@.take(i as int) =~= v@);
    }
    while i > 0
        invariant
            i <= v@.len(),
            last_of(v@, c) == last_of(v@.take(i as int), c),
        decreases i,
    {
        proof {
            assert(v@.take(i as int).drop_last() =~= v@.take(i - 1));
        }
        if v[i - 1] == c {
            return Some(i - 1);
        }
        i = i - 1;
    }
    None
}

fn last_white_exec(v: &Vec<char>, end: usize) -> (r: Option<usize>)
    requires
        end <= v@.len(),
    ensures
        match r {
            Some(k) => k == last_white(v@.take(end as int)),
            None => last_white(v@.take(end as int)) == -1,
        },
{
    let mut i: usize = end;
    while i > 0
        invariant
            i <= end <= v@.len(),
            last_white(v@.take(end as int)) == last_white(v@.take(i as int)),
        decreases i,
    {
        proof {
            assert(v@.take(i as int).drop_last() =~= v@.take(i - 1));
        }
        if is_space(v[i - 1]) {
            return Some(i - 1);
        }
        i = i - 1;
    }
    None
}

/// One colour stop: a colour and its position along the gradient (fixed point).
#[derive(Clone, Copy, Debug, PartialEq, Eq, Structural)]
pub struct ColorStop {
    pub color: Color,
    pub position: i64,
}

/// A linear gradient: colour stops in order, and an angle in fixed-point degrees.
#[derive(Clone, Debug)]
pub struct Gradient {
    pub stops: Vec<ColorStop>,
    pub angle: i64,
}

/// The colour a sorted run of stops gives at `t`, scanning from stop `i`: the
/// interpolation between the first pair that brackets `t`, else the last colour.
pub open spec fn scan_color(stops: Seq<ColorStop>, t: int, i: int) -> Color
    decreases stops.len() - i,
{
    if i < 0 || i + 1 >= stops.len() {
        stops.last().color
    } else {
        let a = stops[i];
        let b = stops[i + 1];
        if a.position <= t <= b.position {
            let local = if b.position == a.position {
                0
            } else {
                (t - a.position) * ONE / (b.position - a.position)
            };
            crate::parser::color::mixed(a.color, b.color, local)
        } else {
            scan_color(stops, t, i + 1)
        }
    }
}

/// The gradient's colour at `t` (held to `[0, ONE]`): white with no stops, the only
/// colour with one, otherwise the scan over bracketing stops.
pub open spec fn gradient_color(stops: Seq<ColorStop>, t: int) -> Color {
    if stops.len() == 0 {
        white()
    } else if stops.len() == 1 {
        stops[0].color
    } else {
        scan_color(stops, crate::parser::color::clamp_unit(t), 0)
    }
}

/// Every colour text reads as a colour.
pub open spec fn all_read(items: Seq<(Seq<char>, int)>) -> bool {
    forall|i: int| 0 <= i < items.len() ==> #[trigger] css_rgb(items[i].0) is Some
}

/// `x` is a colour text among the items that does not read as a colour.
pub open spec fn unread(items: Seq<(Seq<char>, int)>, x: Seq<char>) -> bool {
    exists|i: int| 0 <= i < items.len() && css_rgb(#[trigger] items[i].0) is None && items[i].0 == x
}

/// The stops that read colour texts with their positions make.
pub open spec fn stop_values(items: Seq<(Seq<char>, int)>) -> Seq<ColorStop> {
    Seq::new(
        items.len(),
        |i: int| ColorStop { color: css_color(items[i].0), position: items[i].1 as i64 },
    )
}

/// The `i`-th of `steps` evenly spaced sample points, both ends included.
pub open spec fn sample_point(i: int, steps: int) -> int {
    i * ONE / (if steps - 1 > 1 {
        steps - 1
    } else {
        1
    })
}

impl Gradient {
    /// A gradient with these stops and angle.
    pub fn new(stops: Vec<ColorStop>, angle: i64) -> (r: Self)
        ensures
            r.stops@ == stops@,
            r.angle == angle,
    {
        Gradient { stops, angle }
    }

    /// Reads `linear-gradient([angle | to <side>,] color [pos%], ...)`.
    #[verifier::loop_isolation(false)]
    pub fn parse(gradient_str: &str) -> (r: Result<Self, PigletError>)
        ensures
            gradient_parts(gradient_str@) is None ==> (r matches Err(PigletError::InvalidGradient(e))
                && e@ == gradient_str@),
            gradient_parts(gradient_str@) is Some && all_read(gradient_parts(gradient_str@)->Some_0.0)
                ==> (r matches Ok(g) && g.angle == gradient_parts(gradient_str@)->Some_0.1
                && g.stops@ == stop_values(gradient_parts(gradient_str@)->Some_0.0)),
            gradient_parts(gradient_str@) is Some && !all_read(gradient_parts(gradient_str@)->Some_0.0)
                ==> (r matches Err(PigletError::InvalidColor(e)) && unread(
                gradient_parts(gradient_str@)->Some_0.0,
                e@,
            )),
    {
        let raw = chars_of(gradient_str);
        let t = trim_chars(&raw);
        let pre = chars_of("linear-gradient(");
        if !(matches_at(&t, 0, &pre) && t.len() > pre.len() && t[t.len() - 1] == ')') {
            proof {
                if t@.len() >= pre@.len() {
                    assert(t@.subrange(0, pre@.len() as int) =~= t@.take(pre@.len() as int));
                }
            }
            return Err(PigletError::InvalidGradient(String::from_str(gradient_str)));
        }
        proof {
            assert(t@.subrange(0, pre@.len() as int) =~= t@.take(pre@.len() as int));
        }
        let content = slice_chars(&t, pre.len(), t.len() - 1);
        let raw_parts = crate::parser::gradient::split_at_char(&content, ',');
        let mut parts: Vec<Vec<char>> = Vec::new();
        let mut i: usize = 0;
        while i < raw_parts.len()
            invariant
                i <= raw_parts@.len(),
                parts@.len() == i,
                forall|k: int| 0 <= k < i ==> #[trigger] parts@[k]@ == trim(raw_parts@[k]@),
            decreases raw_parts@.len() - i,
        {
            parts.push(trim_chars(&raw_parts[i]));
            i = i + 1;
        }
        let ghost gparts = pieces(content@, ',').map_values(|x: Seq<char>| trim(x));
        proof {
            assert(rows(parts@) =~= gparts);
            lemma_pieces_nonempty(content@, 0, ',');
        }
        let (angle, first_stop) = first_part_angle(&parts[0]);
        proof {
            assert(parts@[0]@ == gparts[0]);
        }
        let count = parts.len() - first_stop;
        let ghost cs = if first_stop == 1 { gparts.drop_first() } else { gparts };
        proof {
            assert(angle_and_stops(gparts) == (angle as int, cs));
        }
        if count == 0 {
            return Err(PigletError::InvalidGradient(String::from_str(gradient_str)));
        }
        let ghost items = Seq::new(cs.len(), |i: int| stop_of(cs[i], i, cs.len() as int));
        let mut stops: Vec<ColorStop> = Vec::new();
        let mut k: usize = 0;
        while k < count
            invariant
                k <= count,
                count == cs.len(),
                first_stop <= 1,
                parts@.len() == count + first_stop,
                forall|q: int| 0 <= q < cs.len() ==> #[trigger] cs[q] == parts@[q + first_stop]@,
                items == Seq::new(cs.len(), |i: int| stop_of(cs[i], i, cs.len() as int)),
                stops@.len() == k,
                forall|q: int| 0 <= q < k ==> #[trigger] css_rgb(items[q].0) is Some,
                forall|q: int|
                    0 <= q < k ==> #[trigger] stops@[q] == (ColorStop {
                        color: css_color(items[q].0),
                        position: items[q].1 as i64,
                    }),
            decreases count - k,
        {
            proof {
                assert(cs[k as int] == parts@[k + first_stop]@);
            }
            let (text, position) = stop_parts(&parts[k + first_stop], k, count);
            proof {
                assert(items[k as int].0 == text@);
                assert(items[k as int].1 == position);
            }
            let ts = string_of(&text);
            let parsed = Color::parse(ts.as_str());
            match parsed {
                Ok(color) => {
                    stops.push(ColorStop { color, position });
                },
                Err(e) => {
                    proof {
                        assert(css_rgb(items[k as int].0) is None);
                        assert(gradient_parts(gradient_str@) == Some((items, angle as int)));
                        assert(e matches PigletError::InvalidColor(x) && x@ == items[k as int].0);
                        assert(unread(items, items[k as int].0));
                    }
                    return Err(e);
                },
            }
            k = k + 1;
        }
        proof {
            assert(stops@ =~= stop_values(items));
        }
        Ok(Gradient { stops, angle })
    }
}

impl Gradient {
    /// The colour at `t` (fixed point, held to `[0, ONE]`).
    #[verifier::loop_isolation(false)]
    pub fn color_at(&self, t: i64) -> (c: Color)
        ensures
            c == gradient_color(self.stops@, t as int),
    {
        let n = self.stops.len();
        if n == 0 {
            return Color::new(255, 255, 255);
        }
        if n == 1 {
            return self.stops[0].color;
        }
        let t = if t < 0 {
            0
        } else if t > ONE {
            ONE
        } else {
            t
        };
        let mut i: usize = 0;
        while i + 1 < n
            invariant
                n == self.stops@.len(),
                n >= 2,
                i + 1 <= n,
                0 <= t <= ONE,
                scan_color(self.stops@, t as int, 0) == scan_color(self.stops@, t as int, i as int),
            decreases n - i,
        {
            let a = self.stops[i];
            let b = self.stops[i + 1];
            if a.position <= t && t <= b.position {
                let local: i64 = if b.position == a.position {
                    0
                } else {
                    let num: i128 = (t as i128 - a.position as i128) * (ONE as i128);
                    let den: i128 = b.position as i128 - a.position as i128;
                    proof {
                        assert(0 <= num <= den * ONE) by (nonlinear_arith)
                            requires
                                num == (t - a.position) * ONE,
                                den == b.position - a.position,
                                a.position <= t <= b.position,
                        ;
                        crate::utils::fixed::lemma_div_bounds(num as int, den as int, 0, ONE as int);
                    }
                    (num / den) as i64
                };
                let c = a.color.interpolate(&b.color, local);
                proof {
                    assert(c == crate::parser::color::mixed(a.color, b.color, local as int));
                    if b.position != a.position {
                        assert(local == (t - a.position) * ONE / (b.position - a.position));
                    }
                    assert(scan_color(self.stops@, t as int, i as int) == crate::parser::color::mixed(
                        a.color,
                        b.color,
                        local as int,
                    ));
                }
                return c;
            }
            i = i + 1;
        }
        self.stops[n - 1].color
    }

    /// `steps` colours sampled at evenly spaced points, both ends included.
    pub fn colors(&self, steps: usize) -> (r: Vec<Color>)
        ensures
            r@.len() == steps,
            forall|i: int|
                0 <= i < steps ==> #[trigger] r@[i] == gradient_color(
                    self.stops@,
                    sample_point(i, steps as int),
                ),
    {
        let mut r: Vec<Color> = Vec::new();
        let den: usize = if steps > 2 {
            steps - 1
        } else {
            1
        };
        let mut i: usize = 0;
        while i < steps
            invariant
                i <= steps,
                den == (if steps - 1 > 1 { steps - 1 } else { 1 }),
                r@.len() == i,
                forall|k: int|
                    0 <= k < i ==> #[trigger] r@[k] == gradient_color(
                        self.stops@,
                        sample_point(k, steps as int),
                    ),
            decreases steps - i,
        {
            proof {
                if steps > 2 {
                    assert(i * ONE <= den * ONE) by (nonlinear_arith)
                        requires
                            i <= den,
                    ;
                } else {
                    assert(i <= 1);
                }
                crate::utils::fixed::lemma_div_bounds(i * ONE, den as int, 0, ONE as int);
            }
            let t = ((i as u128 * ONE as u128) / den as u128) as i64;
            r.push(self.color_at(t));
            i = i + 1;
        }
        r
    }
}

/// A two-stop gradient from `a` at 0 to `b` at `ONE` starts at `a`, ends at `b`,
/// and halfway has every channel strictly between those of `a` and `b` where they
/// differ by at least 2 (channels 1 apart round down to the first).
pub proof fn lemma_two_stop_gradient(a: Color, b: Color)
    ensures
        ({
            let stops = seq![ColorStop { color: a, position: 0 }, ColorStop { color: b, position: ONE }];
            &&& gradient_color(stops, 0) == a
            &&& gradient_color(stops, ONE as int) == b
            &&& (apart(a.r as int, b.r as int) ==> strictly_between(gradient_color(stops, HALF as int).r as int, a.r as int, b.r as int))
            &&& (apart(a.g as int, b.g as int) ==> strictly_between(gradient_color(stops, HALF as int).g as int, a.g as int, b.g as int))
            &&& (apart(a.b as int, b.b as int) ==> strictly_between(gradient_color(stops, HALF as int).b as int, a.b as int, b.b as int))
        }),
{
    let stops = seq![ColorStop { color: a, position: 0 }, ColorStop { color: b, position: ONE }];
    lemma_mix_ends(a.r as int, b.r as int);
    lemma_mix_ends(a.g as int, b.g as int);
    lemma_mix_ends(a.b as int, b.b as int);
    assert(scan_color(stops, 0, 0) == crate::parser::color::mixed(a, b, 0));
    assert(scan_color(stops, ONE as int, 0) == crate::parser::color::mixed(a, b, ONE as int));
    assert(scan_color(stops, HALF as int, 0) == crate::parser::color::mixed(a, b, HALF as int));
}

/// Stops that give no position are spread evenly: of two, the first sits at 0 and
/// the second at `ONE`.
pub proof fn lemma_default_positions(p: Seq<char>, q: Seq<char>)
    requires
        last_of(p, '%') < 0,
        last_of(q, '%') < 0,
    ensures
        stop_of(p, 0, 2) == (p, 0int),
        stop_of(q, 1, 2) == (q, ONE as int),
{
}

/// `p` and `q` differ by at least 2.
pub open spec fn apart(p: int, q: int) -> bool {
    p - q >= 2 || q - p >= 2
}

/// `x` lies strictly between `p` and `q`, in either order.
pub open spec fn strictly_between(x: int, p: int, q: int) -> bool {
    (p < x < q) || (q < x < p)
}

proof fn lemma_mix_ends(p: int, q: int)
    requires
        0 <= p <= 255,
        0 <= q <= 255,
    ensures
        crate::parser::color::mix(p, q, 0) == p,
        crate::parser::color::mix(p, q, ONE as int) == q,
        0 <= crate::parser::color::mix(p, q, HALF as int) <= 255,
        apart(p, q) ==> strictly_between(crate::parser::color::mix(p, q, HALF as int), p, q),
{
    assert(p * ONE + (q - p) * 0 == p * ONE);
    vstd::arithmetic::div_mod::lemma_div_by_multiple(p, ONE as int);
    assert(p * ONE + (q - p) * ONE == q * ONE) by (nonlinear_arith);
    vstd::arithmetic::div_mod::lemma_div_by_multiple(q, ONE as int);
    let n = p * ONE + (q - p) * HALF;
    assert(n == (p + q) * HALF) by (nonlinear_arith)
        requires
            n == p * ONE + (q - p) * HALF,
    ;
    crate::utils::fixed::lemma_div_bounds(n, ONE as int, 0, 255);
    if p - q >= 2 {
        crate::utils::fixed::lemma_div_bounds(n, ONE as int, q + 1, p - 1);
    } else if q - p >= 2 {
        crate::utils::fixed::lemma_div_bounds(n, ONE as int, p + 1, q - 1);
    }
}

proof fn lemma_last_of(s: Seq<char>, c: char)
    ensures
        -1 <= last_of(s, c) < s.len(),
    decreases s.len(),
{
    if s.len() > 0 {
        lemma_last_of(s.drop_last(), c);
    }
}

proof fn lemma_last_white(s: Seq<char>)
    ensures
        -1 <= last_white(s) < s.len(),
    decreases s.len(),
{
    if s.len() > 0 {
        lemma_last_white(s.drop_last());
    }
}

proof fn lemma_pieces_nonempty(s: Seq<char>, from: int, sep: char)
    requires
        0 <= from <= s.len(),
    ensures
        pieces_from(s, from, sep).len() >= 1,
{
    lemma_sep_end(s, from, sep);
}

/// The angle the first part gives, and the index of the first colour stop.
fn first_part_angle(first: &Vec<char>) -> (r: (i64, usize))
    ensures
        r.1 <= 1,
        ({
            let parts_first = first@;
            if ends_with(parts_first, "deg"@) {
                r.0 == (match fixed_of(trim(strip_deg(parts_first))) {
                    Some(v) => v,
                    None => 180 * ONE,
                }) && r.1 == 1
            } else if starts_with(parts_first, "to "@) {
                r.0 == direction_angle(parts_first) && r.1 == 1
            } else {
                r.0 == 180 * ONE && r.1 == 0
            }
        }),
{
    let deg = chars_of("deg");
    let n = first.len();
    if n >= deg.len() && matches_at(first, n - deg.len(), &deg) {
        let mut body = slice_chars(first, 0, n);
        proof {
            assert(body@ =~= first@);
        }
        while body.len() >= deg.len() && deg.len() > 0 && matches_at(&body, body.len() - deg.len(), &deg)
            invariant
                deg@ == "deg"@,
                strip_deg(first@) == strip_deg(body@),
            decreases body@.len(),
        {
            body = slice_chars(&body, 0, body.len() - deg.len());
        }
        let num = trim_chars(&body);
        let a = match parse_fixed(&num) {
            Some(v) => v,
            None => 180 * ONE,
        };
        return (a, 1);
    }
    let to = chars_of("to ");
    if matches_at(first, 0, &to) {
        proof {
            assert(first@.subrange(0, to@.len() as int) =~= first@.take(to@.len() as int));
        }
        let a = if chars_equal(first, &chars_of("to right")) {
            90 * ONE
        } else if chars_equal(first, &chars_of("to left")) {
            270 * ONE
        } else if chars_equal(first, &chars_of("to top")) {
            0
        } else {
            180 * ONE
        };
        return (a, 1);
    }
    proof {
        if first@.len() >= to@.len() {
            assert(first@.subrange(0, to@.len() as int) =~= first@.take(to@.len() as int));
        }
    }
    (180 * ONE, 0)
}

fn chars_equal(a: &Vec<char>, b: &Vec<char>) -> (r: bool)
    ensures
        r == (a@ == b@),
{
    if a.len() != b.len() {
        return false;
    }
    let r = matches_at(a, 0, b);
    proof {
        assert(a@.subrange(0, b@.len() as int) =~= a@);
    }
    r
}

/// The colour text and position of stop `i` of `count`.
fn stop_parts(p: &Vec<char>, i: usize, count: usize) -> (r: (Vec<char>, i64))
    requires
        i < count,
    ensures
        (r.0@, r.1 as int) == stop_of(p@, i as int, count as int),
{
    let d_den: usize = if count - 1 > 1 {
        count - 1
    } else {
        1
    };
    let d: i64 = ((i as u128 * ONE as u128) / d_den as u128) as i64;
    proof {
        assert(i * ONE <= d_den * ONE) by (nonlinear_arith)
            requires
                i <= d_den,
        ;
        crate::utils::fixed::lemma_div_bounds(i * ONE, d_den as int, 0, ONE as int);
    }
    if let Some(pct) = last_of_exec(p, '%') {
        proof {
            lemma_last_of(p@, '%');
        }
        if let Some(sp) = last_white_exec(p, pct) {
            proof {
                lemma_last_white(p@.take(pct as int));
                assert(p@.take(pct as int).take(sp as int) =~= p@.take(sp as int));
                assert(p@.subrange(sp + 1, pct as int) =~= p@.subrange(sp + 1, pct as int));
            }
            let num = trim_chars(&slice_chars(p, sp + 1, pct));
            let pos = match parse_fixed(&num) {
                Some(v) => crate::utils::fixed::div_floor(v, 100),
                None => d,
            };
            let text = trim_chars(&slice_chars(p, 0, sp));
            proof {
                assert(p@.subrange(0, sp as int) =~= p@.take(sp as int));
            }
            return (text, pos);
        }
    }
    proof {
        assert(p@.subrange(0, p@.len() as int) =~= p@);
    }
    (slice_chars(p, 0, p.len()), d)
}

} // verus!
