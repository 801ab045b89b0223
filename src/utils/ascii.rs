//! The static art model: immutable lines of text with derived geometry.
use vstd::prelude::*;
use crate::utils::fixed::ONE;
use crate::utils::text::{
    chars_of, copy_chars, is_space, is_white, join_lines, join_rows, lines_of, rows, split_lines, string_of,
};

verus! {

/// Length of the longest line, 0 when there are none.
pub open spec fn max_len(ls: Seq<Seq<char>>) -> nat
    decreases ls.len(),
{
    if ls.len() == 0 {
        0
    } else {
        let m = max_len(ls.drop_last());
        if ls.last().len() > m {
            ls.last().len()
        } else {
            m
        }
    }
}

/// Number of non-whitespace characters in a line.
pub open spec fn visible_in(l: Seq<char>) -> nat
    decreases l.len(),
{
    if l.len() == 0 {
        0
    } else {
        visible_in(l.drop_last()) + if is_white(l.last()) {
            0nat
        } else {
            1nat
        }
    }
}

/// Number of non-whitespace characters in all lines.
pub open spec fn visible_count(ls: Seq<Seq<char>>) -> nat
    decreases ls.len(),
{
    if ls.len() == 0 {
        0
    } else {
        visible_count(ls.drop_last()) + visible_in(ls.last())
    }
}

/// How many non-whitespace cells precede column `x` of line `y`, in reading order.
pub open spec fn rank(ls: Seq<Seq<char>>, y: int, x: int) -> int {
    (visible_count(ls.take(y)) + visible_in(ls[y].take(x))) as int
}

/// The non-whitespace cells of line `y`, as (column, row, character), left to right.
pub open spec fn line_positions(l: Seq<char>, y: int) -> Seq<(usize, usize, char)>
    decreases l.len(),
{
    if l.len() == 0 {
        seq![]
    } else {
        line_positions(l.drop_last(), y) + if is_white(l.last()) {
            seq![]
        } else {
            seq![((l.len() - 1) as usize, y as usize, l.last())]
        }
    }
}

/// The non-whitespace cells of all lines, in reading order.
pub open spec fn positions(ls: Seq<Seq<char>>) -> Seq<(usize, usize, char)>
    decreases ls.len(),
{
    if ls.len() == 0 {
        seq![]
    } else {
        positions(ls.drop_last()) + line_positions(ls.last(), ls.len() - 1)
    }
}

/// Every non-whitespace character replaced by `c`; whitespace kept.
pub open spec fn fill_line(l: Seq<char>, c: char) -> Seq<char> {
    l.map_values(|x: char| if is_white(x) { x } else { c })
}

/// A block of `h` lines of `w` spaces each.
pub open spec fn blank_block(w: nat, h: nat) -> Seq<Seq<char>> {
    Seq::new(h, |i: int| Seq::new(w, |j: int| ' '))
}

/// The glyph ramp that stands for increasing opacity.
pub open spec fn fade_ramp() -> Seq<char> {
    seq![' ', '.', '\u{b7}', '-', '~', '=', '+', '*', '#', '@']
}

/// A line with every character repeated `k` times.
pub open spec fn stretch_line(l: Seq<char>, k: nat) -> Seq<char> {
    Seq::new(l.len() * k, |i: int| l[i / k as int])
}

/// Each line stretched `k` times and then repeated `k` times.
pub open spec fn grow(ls: Seq<Seq<char>>, k: nat) -> Seq<Seq<char>> {
    Seq::new(ls.len() * k, |i: int| stretch_line(ls[i / k as int], k))
}

/// Every `s`-th element, starting with the first.
pub open spec fn every_nth<A>(l: Seq<A>, s: nat) -> Seq<A> {
    Seq::new(((l.len() + s - 1) / s as int) as nat, |i: int| l[i * s])
}

/// Every `s`-th line, each keeping every `s`-th character.
pub open spec fn shrink(ls: Seq<Seq<char>>, s: nat) -> Seq<Seq<char>> {
    every_nth(ls, s).map_values(|l: Seq<char>| every_nth(l, s))
}

/// Multi-line ASCII art with its width (longest line) and height (line count).
#[derive(Debug)]
pub struct AsciiArt {
    lines: Vec<Vec<char>>,
    width: usize,
    height: usize,
}

impl View for AsciiArt {
    type V = Seq<Seq<char>>;

    closed spec fn view(&self) -> Seq<Seq<char>> {
        rows(self.lines@)
    }
}

impl Clone for AsciiArt {
    fn clone(&self) -> (r: Self)
        ensures
            r@ == self@,
    {
        let mut lines: Vec<Vec<char>> = Vec::new();
        let mut i: usize = 0;
        while i < self.lines.len()
            invariant
                i <= self.lines.len(),
                lines@.len() == i,
                forall|k: int| 0 <= k < i ==> #[trigger] lines@[k]@ == self.lines@[k]@,
            decreases self.lines.len() - i,
        {
            let l = copy_chars(&self.lines[i]);
            lines.push(l);
            i = i + 1;
        }
        proof {
            assert(rows(lines@) =~= rows(self.lines@));
        }
        Self::from_rows(lines)
    }
}

impl AsciiArt {
    #[verifier::type_invariant]
    closed spec fn well_formed(&self) -> bool {
        &&& self.width == max_len(self@)
        &&& self.height == self@.len()
    }

    /// The art whose lines are those of `text`.
    pub fn new(text: String) -> (r: Self)
        ensures
            r@ == lines_of(text@),
    {
        let chars = chars_of(text.as_str());
        Self::from_chars(&chars)
    }

    /// The art whose lines are those of `text`.
    pub fn from_chars(text: &Vec<char>) -> (r: Self)
        ensures
            r@ == lines_of(text@),
    {
        let lines = split_lines(text);
        Self::from_rows(lines)
    }

    /// The art with exactly these lines.
    pub fn from_rows(lines: Vec<Vec<char>>) -> (r: Self)
        ensures
            r@ == rows(lines@),
    {
        let mut width: usize = 0;
        let mut i: usize = 0;
        while i < lines.len()
            invariant
                i <= lines.len(),
                width == max_len(rows(lines@).take(i as int)),
            decreases lines.len() - i,
        {
            proof {
                assert(rows(lines@).take(i + 1).drop_last() =~= rows(lines@).take(i as int));
            }
            if lines[i].len() > width {
                width = lines[i].len();
            }
            i = i + 1;
        }
        proof {
            assert(rows(lines@).take(i as int) =~= rows(lines@));
        }
        let height = lines.len();
        AsciiArt { lines, width, height }
    }

    /// The lines, top to bottom.
    pub fn get_lines(&self) -> (r: Vec<String>)
        ensures
            r@.len() == self@.len(),
            forall|i: int| 0 <= i < r@.len() ==> #[trigger] r@[i]@ == self@[i],
    {
        let mut r: Vec<String> = Vec::new();
        let mut i: usize = 0;
        while i < self.lines.len()
            invariant
                i <= self.lines.len(),
                r@.len() == i,
                forall|k: int| 0 <= k < i ==> #[trigger] r@[k]@ == self@[k],
            decreases self.lines.len() - i,
        {
            r.push(string_of(&self.lines[i]));
            i = i + 1;
        }
        r
    }

    /// A copy of the lines, as characters.
    pub fn char_rows(&self) -> (r: Vec<Vec<char>>)
        ensures
            rows(r@) == self@,
    {
        let mut lines: Vec<Vec<char>> = Vec::new();
        let mut i: usize = 0;
        while i < self.lines.len()
            invariant
                i <= self.lines.len(),
                lines@.len() == i,
                forall|k: int| 0 <= k < i ==> #[trigger] lines@[k]@ == self.lines@[k]@,
            decreases self.lines.len() - i,
        {
            lines.push(copy_chars(&self.lines[i]));
            i = i + 1;
        }
        proof {
            assert(rows(lines@) =~= rows(self.lines@));
        }
        lines
    }

    /// Whether the art is within `MAX_SIDE` in both directions.
    pub fn is_bounded(&self) -> (r: bool)
        ensures
            r == bounded(self@),
    {
        if self.lines.len() > MAX_SIDE {
            return false;
        }
        let mut i: usize = 0;
        while i < self.lines.len()
            invariant
                i <= self.lines.len() <= MAX_SIDE,
                forall|k: int| 0 <= k < i ==> #[trigger] self@[k].len() <= MAX_SIDE,
            decreases self.lines.len() - i,
        {
            if self.lines[i].len() > MAX_SIDE {
                proof {
                    assert(self@[i as int].len() > MAX_SIDE);
                }
                return false;
            }
            i = i + 1;
        }
        true
    }

    /// Length of the longest line.
    pub fn width(&self) -> (r: usize)
        ensures
            r == max_len(self@),
    {
        proof {
            use_type_invariant(self);
        }
        self.width
    }

    /// Number of lines.
    pub fn height(&self) -> (r: usize)
        ensures
            r == self@.len(),
    {
        proof {
            use_type_invariant(self);
        }
        self.height
    }

    /// The lines joined with line feeds.
    pub fn render(&self) -> (r: String)
        ensures
            r@ == join_lines(self@),
    {
        string_of(&join_rows(&self.lines))
    }

    /// The character in column `x` of line `y`, if there is one.
    pub fn char_at(&self, x: usize, y: usize) -> (r: Option<char>)
        ensures
            r == (if y < self@.len() && x < self@[y as int].len() {
                Some(self@[y as int][x as int])
            } else {
                None
            }),
    {
        if y < self.lines.len() && x < self.lines[y].len() {
            Some(self.lines[y][x])
        } else {
            None
        }
    }

    /// Number of non-whitespace characters.
    pub fn char_count(&self) -> (r: usize)
        ensures
            r == visible_count(self@),
    {
        let pos = self.char_positions();
        proof {
            lemma_positions_len(self@);
        }
        pos.len()
    }

    /// The non-whitespace cells in reading order (left to right, top to bottom).
    pub fn char_positions(&self) -> (r: Vec<(usize, usize, char)>)
        ensures
            r@ == positions(self@),
    {
        let mut r: Vec<(usize, usize, char)> = Vec::new();
        let mut y: usize = 0;
        while y < self.lines.len()
            invariant
                y <= self.lines.len(),
                r@ == positions(self@.take(y as int)),
            decreases self.lines.len() - y,
        {
            let line = &self.lines[y];
            let mut x: usize = 0;
            let ghost before = r@;
            while x < line.len()
                invariant
                    x <= line@.len(),
                    line@ == self@[y as int],
                    y < self@.len(),
                    r@ == before + line_positions(line@.take(x as int), y as int),
                decreases line@.len() - x,
            {
                let c = line[x];
                proof {
                    assert(line@.take(x + 1).drop_last() =~= line@.take(x as int));
                }
                if !is_space(c) {
                    r.push((x, y, c));
                }
                x = x + 1;
                proof {
                    assert(r@ =~= before + line_positions(line@.take(x as int), y as int));
                }
            }
            proof {
                assert(line@.take(x as int) =~= line@);
                assert(self@.take(y + 1).drop_last() =~= self@.take(y as int));
                assert(r@ =~= positions(self@.take(y + 1)));
            }
            y = y + 1;
        }
        proof {
            assert(self@.take(y as int) =~= self@);
        }
        r
    }
}

/// What `apply_fade` renders: the text itself at full opacity, a blank block of the
/// same size at none, and otherwise every visible glyph replaced by the ramp glyph
/// at index `floor(opacity * 9)`.
pub open spec fn faded(ls: Seq<Seq<char>>, opacity: int) -> Seq<char> {
    if opacity >= ONE {
        join_lines(ls)
    } else if opacity <= 0 {
        join_lines(blank_block(max_len(ls), ls.len()))
    } else {
        let c = fade_ramp()[opacity * 9 / ONE as int];
        join_lines(ls.map_values(|l: Seq<char>| fill_line(l, c)))
    }
}

/// The lines of the art scaled by `factor` (fixed point): nothing for a factor of
/// at most 0, the lines themselves within 1% of 1, each cell repeated
/// `floor(factor)` times in both directions above 1, and every
/// `floor(1 / factor)`-th row and column below 1.
pub open spec fn scaled(ls: Seq<Seq<char>>, factor: int) -> Seq<Seq<char>> {
    if factor <= 0 {
        seq![]
    } else if -(ONE / 100) < factor - ONE < ONE / 100 {
        ls
    } else if factor > ONE {
        lines_of(join_lines(grow(ls, (factor / ONE as int) as nat)))
    } else {
        lines_of(join_lines(shrink(ls, (ONE as int / factor) as nat)))
    }
}

/// Largest width or height of art that effects take: scaled up or spaced out
/// sixteenfold it still fits a `usize`, and every offset an effect derives from it
/// fits an `i32`.
pub const MAX_SIDE: usize = 100_000_000;

/// No more than `MAX_SIDE` lines, none longer than `MAX_SIDE`.
pub open spec fn bounded(ls: Seq<Seq<char>>) -> bool {
    ls.len() <= MAX_SIDE && forall|i: int| 0 <= i < ls.len() ==> #[trigger] ls[i].len() <= MAX_SIDE
}

/// Bounded art is at most `MAX_SIDE` wide.
pub proof fn lemma_bounded_width(ls: Seq<Seq<char>>)
    requires
        bounded(ls),
    ensures
        max_len(ls) <= MAX_SIDE,
    decreases ls.len(),
{
    if ls.len() > 0 {
        assert(bounded(ls.drop_last()));
        lemma_bounded_width(ls.drop_last());
        assert(ls.last().len() <= MAX_SIDE);
    }
}

fn fade_glyph(i: i64) -> (c: char)
    requires
        0 <= i < 10,
    ensures
        c == fade_ramp()[i as int],
{
    if i == 0 {
        ' '
    } else if i == 1 {
        '.'
    } else if i == 2 {
        '\u{b7}'
    } else if i == 3 {
        '-'
    } else if i == 4 {
        '~'
    } else if i == 5 {
        '='
    } else if i == 6 {
        '+'
    } else if i == 7 {
        '*'
    } else if i == 8 {
        '#'
    } else {
        '@'
    }
}

fn fill_chars(l: &Vec<char>, c: char) -> (r: Vec<char>)
    ensures
        r@ == fill_line(l@, c),
{
    let mut r: Vec<char> = Vec::new();
    let mut i: usize = 0;
    while i < l.len()
        invariant
            i <= l.len(),
            r@ == fill_line(l@.take(i as int), c),
        decreases l.len() - i,
    {
        let x = l[i];
        if is_space(x) {
            r.push(x);
        } else {
            r.push(c);
        }
        i = i + 1;
        proof {
            assert(r@ =~= fill_line(l@.take(i as int), c));
        }
    }
    proof {
        assert(l@.take(i as int) =~= l@);
    }
    r
}

fn spaces(n: usize) -> (r: Vec<char>)
    ensures
        r@ == Seq::new(n as nat, |j: int| ' '),
{
    let mut r: Vec<char> = Vec::new();
    while r.len() < n
        invariant
            r.len() <= n,
            r@ == Seq::new(r.len() as nat, |j: int| ' '),
        decreases n - r.len(),
    {
        r.push(' ');
        proof {
            assert(r@ =~= Seq::new(r.len() as nat, |j: int| ' '));
        }
    }
    r
}

fn stretch(l: &Vec<char>, k: usize) -> (r: Vec<char>)
    requires
        k >= 1,
        l@.len() * k <= usize::MAX,
    ensures
        r@ == stretch_line(l@, k as nat),
{
    let mut r: Vec<char> = Vec::new();
    let mut j: usize = 0;
    while j < l.len()
        invariant
            j <= l.len(),
            k >= 1,
            l@.len() * k <= usize::MAX,
            r@.len() == j * k,
            forall|i: int| 0 <= i < r@.len() ==> #[trigger] r@[i] == l@[i / k as int],
        decreases l.len() - j,
    {
        let mut m: usize = 0;
        proof {
            assert(j * k + k <= l@.len() * k) by (nonlinear_arith)
                requires
                    j < l@.len(),
            ;
        }
        while m < k
            invariant
                m <= k,
                j < l@.len(),
                j * k + k <= usize::MAX,
                r@.len() == j * k + m,
                forall|i: int| 0 <= i < r@.len() ==> #[trigger] r@[i] == l@[i / k as int],
            decreases k - m,
        {
            proof {
                vstd::arithmetic::div_mod::lemma_fundamental_div_mod_converse(
                    (j * k + m) as int,
                    k as int,
                    j as int,
                    m as int,
                );
            }
            r.push(l[j]);
            m = m + 1;
        }
        j = j + 1;
        proof {
            assert(r@.len() == j * k) by (nonlinear_arith)
                requires
                    r@.len() == (j - 1) * k + k,
            ;
        }
    }
    proof {
        assert(r@ =~= stretch_line(l@, k as nat));
    }
    r
}

proof fn lemma_ceil_count(len: int, s: int, n: int)
    requires
        s >= 1,
        len >= 0,
        (n - 1) * s < len <= n * s || (n == 0 && len == 0),
    ensures
        n == (len + s - 1) / s,
{
    if n == 0 {
        assert(len == 0) by (nonlinear_arith)
            requires
                (n - 1) * s < len <= n * s || (n == 0 && len == 0),
                n == 0,
                s >= 1,
                len >= 0,
        ;
        vstd::arithmetic::div_mod::lemma_fundamental_div_mod_converse(s - 1, s, 0, s - 1);
    } else {
        assert((n - 1) * s < len <= n * s);
        assert(0 <= len + s - 1 - n * s < s) by (nonlinear_arith)
            requires
                (n - 1) * s < len <= n * s,
        ;
        vstd::arithmetic::div_mod::lemma_fundamental_div_mod_converse(
            len + s - 1,
            s,
            n,
            len + s - 1 - n * s,
        );
    }
}

fn sample<A: Copy>(l: &Vec<A>, s: usize) -> (r: Vec<A>)
    requires
        s >= 1,
    ensures
        r@ == every_nth(l@, s as nat),
{
    let mut r: Vec<A> = Vec::new();
    let mut idx: usize = 0;
    proof {
        assert(r@.len() * s == 0) by (nonlinear_arith)
            requires
                r@.len() == 0,
        ;
    }
    while idx < l.len()
        invariant
            s >= 1,
            idx == r@.len() * s,
            idx < l@.len() + s,
            r@.len() == 0 || (r@.len() - 1) * s < l@.len(),
            forall|i: int| 0 <= i < r@.len() ==> #[trigger] r@[i] == l@[i * s],
        decreases l@.len() - idx,
    {
        r.push(l[idx]);
        proof {
            assert(r@.len() * s == idx + s) by (nonlinear_arith)
                requires
                    idx == (r@.len() - 1) * s,
            ;
        }
        if l.len() - idx <= s {
            idx = l.len();
            proof {
                lemma_ceil_count(l@.len() as int, s as int, r@.len() as int);
            }
            assert(r@ =~= every_nth(l@, s as nat));
            return r;
        }
        idx = idx + s;
    }
    proof {
        if r@.len() > 0 {
            assert(r@.len() * s >= l@.len());
        }
        lemma_ceil_count(l@.len() as int, s as int, r@.len() as int);
        assert(r@ =~= every_nth(l@, s as nat));
    }
    r
}

/// Every line is at most as long as the longest.
pub proof fn lemma_max_len(ls: Seq<Seq<char>>, i: int)
    requires
        0 <= i < ls.len(),
    ensures
        ls[i].len() <= max_len(ls),
    decreases ls.len(),
{
    if i < ls.len() - 1 {
        lemma_max_len(ls.drop_last(), i);
    }
}

impl AsciiArt {
    /// The art drawn at `opacity` (fixed point) with the glyph ramp.
    pub fn apply_fade(&self, opacity: i64) -> (r: String)
        ensures
            r@ == faded(self@, opacity as int),
    {
        proof {
            use_type_invariant(self);
        }
        if opacity >= ONE {
            return self.render();
        }
        let mut out: Vec<Vec<char>> = Vec::new();
        if opacity <= 0 {
            let mut i: usize = 0;
            while i < self.height
                invariant
                    i <= self.height,
                    self.height == self@.len(),
                    self.width == max_len(self@),
                    out@.len() == i,
                    forall|k: int|
                        0 <= k < i ==> #[trigger] out@[k]@ == Seq::new(
                            self.width as nat,
                            |j: int| ' ',
                        ),
                decreases self.height - i,
            {
                out.push(spaces(self.width));
                i = i + 1;
            }
            proof {
                assert(rows(out@) =~= blank_block(self.width as nat, i as nat));
            }
        } else {
            let c = fade_glyph(opacity * 9 / ONE);
            let ghost f = |l: Seq<char>| fill_line(l, c);
            let mut i: usize = 0;
            while i < self.lines.len()
                invariant
                    i <= self.lines.len(),
                    out@.len() == i,
                    forall|k: int| 0 <= k < i ==> #[trigger] out@[k]@ == fill_line(self@[k], c),
                decreases self.lines.len() - i,
            {
                out.push(fill_chars(&self.lines[i], c));
                i = i + 1;
            }
            proof {
                assert(rows(out@) =~= self@.map_values(f));
            }
        }
        string_of(&join_rows(&out))
    }

    /// The art scaled by `factor` (fixed point).
    pub fn scale(&self, factor: i64) -> (r: AsciiArt)
        requires
            factor > ONE ==> (factor / ONE) * max_len(self@) <= usize::MAX && (factor / ONE)
                * self@.len() <= usize::MAX,
        ensures
            r@ == scaled(self@, factor as int),
    {
        proof {
            use_type_invariant(self);
        }
        if factor <= 0 {
            let empty: Vec<char> = Vec::new();
            let r = Self::from_chars(&empty);
            proof {
                assert(lines_of(empty@) =~= seq![]);
            }
            return r;
        }
        if -(ONE / 100) < factor - ONE && factor - ONE < ONE / 100 {
            return self.clone();
        }
        let mut out: Vec<Vec<char>> = Vec::new();
        if factor > ONE {
            proof {
                vstd::arithmetic::div_mod::lemma_div_is_ordered(ONE as int, factor as int, ONE as int);
                vstd::arithmetic::div_mod::lemma_div_by_multiple(1, ONE as int);
                vstd::arithmetic::div_mod::lemma_div_is_ordered_by_denominator(factor as int, 1, ONE as int);
            }
            let q: i64 = factor / ONE;
            assert(1 <= q <= factor);
            let k: usize = if self.lines.len() == 0 {
                1
            } else {
                proof {
                    assert(q <= q * self@.len()) by (nonlinear_arith)
                        requires
                            q >= 1,
                            self@.len() >= 1,
                    ;
                }
                q as usize
            };
            let mut y: usize = 0;
            while y < self.lines.len()
                invariant
                    y <= self.lines.len(),
                    k >= 1,
                    k * max_len(self@) <= usize::MAX,
                    k * self@.len() <= usize::MAX,
                    out@.len() == y * k,
                    forall|i: int|
                        0 <= i < out@.len() ==> #[trigger] out@[i]@ == stretch_line(
                            self@[i / k as int],
                            k as nat,
                        ),
                decreases self.lines.len() - y,
            {
                proof {
                    lemma_max_len(self@, y as int);
                    assert(self@[y as int].len() * k <= k * max_len(self@)) by (nonlinear_arith)
                        requires
                            self@[y as int].len() <= max_len(self@),
                    ;
                    assert(y * k + k <= k * self@.len()) by (nonlinear_arith)
                        requires
                            y < self@.len(),
                    ;
                }
                let st = stretch(&self.lines[y], k);
                let mut m: usize = 0;
                while m < k
                    invariant
                        m <= k,
                        y < self@.len(),
                        st@ == stretch_line(self@[y as int], k as nat),
                        out@.len() == y * k + m,
                        forall|i: int|
                            0 <= i < out@.len() ==> #[trigger] out@[i]@ == stretch_line(
                                self@[i / k as int],
                                k as nat,
                            ),
                    decreases k - m,
                {
                    proof {
                        vstd::arithmetic::div_mod::lemma_fundamental_div_mod_converse(
                            (y * k + m) as int,
                            k as int,
                            y as int,
                            m as int,
                        );
                    }
                    out.push(copy_chars(&st));
                    m = m + 1;
                }
                y = y + 1;
                proof {
                    assert(out@.len() == y * k) by (nonlinear_arith)
                        requires
                            out@.len() == (y - 1) * k + k,
                    ;
                }
            }
            proof {
                assert(rows(out@) =~= grow(self@, k as nat));
                assert(grow(self@, k as nat) =~= grow(self@, q as nat));
            }
        } else {
            let s = (ONE / factor) as usize;
            proof {
                vstd::arithmetic::div_mod::lemma_div_is_ordered(factor as int, ONE as int, factor as int);
                vstd::arithmetic::div_mod::lemma_div_by_multiple(1, factor as int);
            }
            let n = self.lines.len();
            let mut idx: usize = 0;
            proof {
                assert(out@.len() * s == 0) by (nonlinear_arith)
                    requires
                        out@.len() == 0,
                ;
            }
            while idx < n
                invariant
                    s >= 1,
                    n == self@.len(),
                    idx <= n,
                    idx <= out@.len() * s,
                    idx < n ==> idx == out@.len() * s,
                    out@.len() == 0 || (out@.len() - 1) * s < n,
                    forall|i: int|
                        0 <= i < out@.len() ==> #[trigger] out@[i]@ == every_nth(
                            self@[i * s],
                            s as nat,
                        ),
                decreases n - idx,
            {
                out.push(sample(&self.lines[idx], s));
                proof {
                    assert(out@.len() * s == idx + s) by (nonlinear_arith)
                        requires
                            idx == (out@.len() - 1) * s,
                    ;
                }
                if n - idx <= s {
                    idx = n;
                } else {
                    idx = idx + s;
                }
            }
            proof {
                lemma_ceil_count(n as int, s as int, out@.len() as int);
                assert(rows(out@) =~= shrink(self@, s as nat));
            }
        }
        let joined = join_rows(&out);
        Self::from_chars(&joined)
    }
}

/// Counting one more character of a line.
pub proof fn lemma_visible_in_step(l: Seq<char>, x: int)
    requires
        0 <= x < l.len(),
    ensures
        visible_in(l.take(x + 1)) == visible_in(l.take(x)) + if is_white(l[x]) {
            0int
        } else {
            1int
        },
{
    assert(l.take(x + 1).drop_last() =~= l.take(x));
}

/// Counting one more line.
pub proof fn lemma_visible_count_step(ls: Seq<Seq<char>>, y: int)
    requires
        0 <= y < ls.len(),
    ensures
        visible_count(ls.take(y + 1)) == visible_count(ls.take(y)) + visible_in(ls[y]),
{
    assert(ls.take(y + 1).drop_last() =~= ls.take(y));
}

/// A line has as many non-whitespace cells as `visible_in` counts.
pub proof fn lemma_line_positions_len(l: Seq<char>, y: int)
    ensures
        line_positions(l, y).len() == visible_in(l),
    decreases l.len(),
{
    if l.len() > 0 {
        lemma_line_positions_len(l.drop_last(), y);
    }
}

/// There are as many non-whitespace cells as `visible_count` counts, so
/// `char_count` is the length of `char_positions`.
pub proof fn lemma_positions_len(ls: Seq<Seq<char>>)
    ensures
        positions(ls).len() == visible_count(ls),
    decreases ls.len(),
{
    if ls.len() > 0 {
        lemma_positions_len(ls.drop_last());
        lemma_line_positions_len(ls.last(), ls.len() - 1);
    }
}

/// Fading at full opacity draws the art unchanged, and at none (or less) draws a
/// blank block as wide and as tall as the art.
pub proof fn lemma_fade_extremes(ls: Seq<Seq<char>>, opacity: int)
    ensures
        faded(ls, ONE as int) == join_lines(ls),
        opacity <= 0 ==> faded(ls, opacity) == join_lines(blank_block(max_len(ls), ls.len())),
        opacity <= 0 ==> blank_block(max_len(ls), ls.len()).len() == ls.len() && forall|i: int|
            0 <= i < ls.len() ==> #[trigger] blank_block(max_len(ls), ls.len())[i]
                == Seq::new(max_len(ls), |j: int| ' '),
{
}

/// Scaling by exactly 1 keeps the lines, and by 0 or less leaves none.
pub proof fn lemma_scale_extremes(ls: Seq<Seq<char>>, factor: int)
    ensures
        scaled(ls, ONE as int) == ls,
        factor <= 0 ==> scaled(ls, factor).len() == 0,
{
}

} // verus!
