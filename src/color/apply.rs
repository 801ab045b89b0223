//! Colouring text with 24-bit foreground colours.
use vstd::prelude::*;
use crate::parser::color::{ansi_of, Color};
use crate::utils::ascii::{lemma_visible_count_step, lemma_visible_in_step, rank, visible_count, visible_in};
use crate::utils::text::{
    chars_of, is_space, is_white, join_lines, join_rows, lemma_lines_total, lines_of, rows,
    split_lines, string_of, total_len,
};
use vstd::string::*;

verus! {

/// The escape sequence that gives the foreground back to the terminal's default.
pub open spec fn reset_fg() -> Seq<char> {
    seq!['\u{1b}', '[', '3', '9', 'm']
}

/// The empty escape sequence crossterm writes for a colour when colours are off.
pub open spec fn empty_sgr() -> Seq<char> {
    seq!['\u{1b}', '[', 'm']
}

/// The texts crossterm may write for `ch` in foreground colour `c`: the colour's
/// sequence, the character and the reset; with colours turned off (`NO_COLOR`, or
/// at run time) the character between two empty sequences; and nothing at all on a
/// Windows console that takes no escape sequences, where crossterm styles through
/// the console API instead of writing text.
pub open spec fn styled_forms(ch: char, c: Color, s: Seq<char>) -> bool {
    s == ansi_of(c) + seq![ch] + reset_fg() || s == empty_sgr() + seq![ch] + empty_sgr() || s
        == Seq::<char>::empty()
}

/// Relies on crossterm's `Stylize::with` and the `Display` of the `StyledContent`
/// it returns (through `PrintStyledContent` and `Colored`): one of the forms of
/// `styled_forms`, depending on whether colour output is on.
#[verifier::external_body]
fn styled_char(ch: char, color: Color) -> (r: String)
    ensures
        styled_forms(ch, color, r@),
{
    let c = crossterm::style::Color::Rgb { r: color.r, g: color.g, b: color.b };
    format!("{}", crossterm::style::Stylize::with(ch, c))
}

/// The pieces joined end to end.
pub open spec fn concat(ps: Seq<Seq<char>>) -> Seq<char>
    decreases ps.len(),
{
    if ps.len() == 0 {
        seq![]
    } else {
        concat(ps.drop_last()) + ps.last()
    }
}

/// `p` is what a cell holding `ch` becomes in colour `c`: whitespace as it is,
/// anything else styled.
pub open spec fn paint_ok(ch: char, c: Color, p: Seq<char>) -> bool {
    if is_white(ch) {
        p == seq![ch]
    } else {
        styled_forms(ch, c, p)
    }
}

/// `ps` are the cells of line `l` painted in the colours `cols`, one per cell.
pub open spec fn painted(l: Seq<char>, cols: Seq<Color>, ps: Seq<Seq<char>>) -> bool {
    &&& ps.len() == l.len()
    &&& cols.len() == l.len()
    &&& forall|i: int| 0 <= i < l.len() ==> paint_ok(l[i], cols[i], #[trigger] ps[i])
}

/// The colours of a line's cells when column `i` takes `cs[i mod len]`.
pub open spec fn cyclic_colors(l: Seq<char>, cs: Seq<Color>) -> Seq<Color> {
    Seq::new(l.len(), |i: int| cs[i % cs.len() as int])
}

/// `out` is line `l` with column `i` in colour `cs[i mod len]`; with no colours,
/// the line itself.
pub open spec fn colored_line_ok(l: Seq<char>, cs: Seq<Color>, out: Seq<char>) -> bool {
    if cs.len() == 0 {
        out == l
    } else {
        exists|ps: Seq<Seq<char>>| painted(l, cyclic_colors(l, cs), ps) && out == concat(ps)
    }
}

/// The colour of the non-whitespace cell of rank `k`: colours spread evenly over
/// `total` cells.
pub open spec fn spread_color(cs: Seq<Color>, k: int, total: int) -> Color {
    let i = k * cs.len() / total;
    if i < cs.len() {
        cs[i]
    } else {
        cs.last()
    }
}

/// The colours of line `y`'s cells when the colours are spread over the text.
pub open spec fn spread_colors(ls: Seq<Seq<char>>, cs: Seq<Color>, y: int) -> Seq<Color> {
    Seq::new(ls[y].len(), |x: int| spread_color(cs, rank(ls, y, x), total_len(ls) as int))
}

/// `out` is the text of `ls` with the colours spread across its non-whitespace
/// cells in reading order, whitespace kept, lines joined with line feeds.
pub open spec fn gradient_ok(ls: Seq<Seq<char>>, cs: Seq<Color>, out: Seq<char>) -> bool {
    exists|rs: Seq<Seq<Seq<char>>>|
        rs.len() == ls.len() && (forall|y: int|
            0 <= y < ls.len() ==> painted(ls[y], spread_colors(ls, cs, y), #[trigger] rs[y]))
            && out == join_lines(rs.map_values(|ps: Seq<Seq<char>>| concat(ps)))
}

/// Character `ch` in colour `color`.
pub fn apply_color_to_char(ch: char, color: Color) -> (r: String)
    ensures
        styled_forms(ch, color, r@),
{
    styled_char(ch, color)
}

fn paint_into(out: &mut Vec<char>, ch: char, color: Color) -> (p: Ghost<Seq<char>>)
    ensures
        paint_ok(ch, color, p@),
        final(out)@ == old(out)@ + p@,
{
    if is_space(ch) {
        out.push(ch);
        let ghost p = seq![ch];
        Ghost(p)
    } else {
        let s = styled_char(ch, color);
        let cs = chars_of(s.as_str());
        let ghost before = out@;
        let mut i: usize = 0;
        while i < cs.len()
            invariant
                i <= cs@.len(),
                out@ == before + cs@.take(i as int),
            decreases cs@.len() - i,
        {
            out.push(cs[i]);
            i = i + 1;
            proof {
                assert(out@ =~= before + cs@.take(i as int));
            }
        }
        proof {
            assert(cs@.take(i as int) =~= cs@);
        }
        let ghost p = cs@;
        Ghost(p)
    }
}

proof fn lemma_concat_push(ps: Seq<Seq<char>>, p: Seq<char>)
    ensures
        concat(ps.push(p)) == concat(ps) + p,
{
    assert(ps.push(p).drop_last() =~= ps);
}

/// A line with the character in column `i` in colour `colors[i mod len]`;
/// whitespace is kept as it is, and no colours leave the line unchanged.
pub fn apply_color_to_line(line: &str, colors: &[Color]) -> (r: String)
    ensures
        colored_line_ok(line@, colors@, r@),
{
    let l = chars_of(line);
    if colors.len() == 0 {
        return string_of(&l);
    }
    let mut out: Vec<char> = Vec::new();
    let mut i: usize = 0;
    let ghost mut ps: Seq<Seq<char>> = seq![];
    let ghost cols = cyclic_colors(l@, colors@);
    while i < l.len()
        invariant
            i <= l@.len(),
            colors@.len() > 0,
            cols == cyclic_colors(l@, colors@),
            ps.len() == i,
            forall|k: int| 0 <= k < i ==> paint_ok(l@[k], cols[k], #[trigger] ps[k]),
            out@ == concat(ps),
        decreases l@.len() - i,
    {
        let Ghost(p) = paint_into(&mut out, l[i], colors[i % colors.len()]);
        proof {
            lemma_concat_push(ps, p);
            ps = ps.push(p);
        }
        i = i + 1;
    }
    proof {
        assert(painted(l@, cols, ps));
    }
    string_of(&out)
}

/// The line's cells coloured as `gradient_ok` says.
fn gradient_row(l: &Vec<char>, colors: &[Color], total: usize, Ghost(g): Ghost<Seq<Seq<char>>>, Ghost(y): Ghost<int>, start: usize) -> (r: (Vec<char>, usize, Ghost<Seq<Seq<char>>>))
    requires
        0 <= y < g.len(),
        g[y] == l@,
        start == visible_count(g.take(y)),
        colors@.len() > 0,
        total > 0,
        total == total_len(g),
        visible_count(g.take(y)) + visible_in(l@) <= total,
    ensures
        painted(l@, spread_colors(g, colors@, y), r.2@),
        r.0@ == concat(r.2@),
        r.1 == start + visible_in(l@),
{
    let mut row: Vec<char> = Vec::new();
    let mut k: usize = start;
    let mut x: usize = 0;
    let ghost cols = spread_colors(g, colors@, y);
    let ghost mut ps: Seq<Seq<char>> = seq![];
    proof {
        assert(l@.take(0) =~= seq![]);
    }
    while x < l.len()
        invariant
            0 <= y < g.len(),
            g[y] == l@,
            x <= l@.len(),
            colors@.len() > 0,
            total > 0,
            total == total_len(g),
            cols == spread_colors(g, colors@, y),
            k == rank(g, y, x as int),
            visible_count(g.take(y)) + visible_in(l@) <= total,
            start == visible_count(g.take(y)),
            ps.len() == x,
            forall|j: int| 0 <= j < x ==> paint_ok(l@[j], cols[j], #[trigger] ps[j]),
            row@ == concat(ps),
        decreases l@.len() - x,
    {
        let ch = l[x];
        proof {
            lemma_visible_in_step(l@, x as int);
            lemma_visible_in_prefix(l@, x as int + 1);
        }
        let n = colors.len();
        proof {
            assert(k as int * n as int <= 0xffff_ffff_ffff_ffff * 0xffff_ffff_ffff_ffff) by (
            nonlinear_arith)
                requires
                    0 <= k <= 0xffff_ffff_ffff_ffff,
                    0 <= n <= 0xffff_ffff_ffff_ffff,
            ;
        }
        let idx: u128 = (k as u128) * (n as u128) / (total as u128);
        let color = if idx < n as u128 {
            colors[idx as usize]
        } else {
            colors[n - 1]
        };
        proof {
            assert(color == cols[x as int]);
        }
        let Ghost(p) = paint_into(&mut row, ch, color);
        proof {
            lemma_concat_push(ps, p);
            ps = ps.push(p);
        }
        if !is_space(ch) {
            k = k + 1;
        }
        x = x + 1;
    }
    proof {
        assert(l@.take(x as int) =~= l@);
    }
    (row, k, Ghost(ps))
}

proof fn lemma_visible_in_prefix(l: Seq<char>, x: int)
    requires
        0 <= x <= l.len(),
    ensures
        visible_in(l.take(x)) <= visible_in(l),
    decreases l.len() - x,
{
    if x < l.len() {
        lemma_visible_in_step(l, x);
        lemma_visible_in_prefix(l, x + 1);
    } else {
        assert(l.take(x) =~= l);
    }
}

proof fn lemma_visible_le_total(ls: Seq<Seq<char>>)
    ensures
        visible_count(ls) <= total_len(ls),
    decreases ls.len(),
{
    if ls.len() > 0 {
        lemma_visible_le_total(ls.drop_last());
        lemma_visible_in_le_len(ls.last());
    }
}

proof fn lemma_visible_in_le_len(l: Seq<char>)
    ensures
        visible_in(l) <= l.len(),
    decreases l.len(),
{
    if l.len() > 0 {
        lemma_visible_in_le_len(l.drop_last());
    }
}

proof fn lemma_total_len_prefix(ls: Seq<Seq<char>>, y: int)
    requires
        0 <= y <= ls.len(),
    ensures
        total_len(ls.take(y)) <= total_len(ls),
    decreases ls.len() - y,
{
    if y < ls.len() {
        assert(ls.take(y + 1).drop_last() =~= ls.take(y));
        lemma_total_len_prefix(ls, y + 1);
    } else {
        assert(ls.take(y) =~= ls);
    }
}

/// The text with the colours spread evenly across its non-whitespace characters
/// in reading order; lines are joined with line feeds. Text with no characters,
/// or no colours, comes back unchanged.
pub fn apply_gradient_to_text(text: &str, colors: &[Color]) -> (r: String)
    ensures
        if total_len(lines_of(text@)) == 0 || colors@.len() == 0 {
            r@ == text@
        } else {
            gradient_ok(lines_of(text@), colors@, r@)
        },
{
    let chars = chars_of(text);
    let lines = split_lines(&chars);
    let ghost g = rows(lines@);
    let mut total: usize = 0;
    let mut i: usize = 0;
    proof {
        lemma_lines_total(chars@, 0);
    }
    while i < lines.len()
        invariant
            g == rows(lines@),
            g == lines_of(text@),
            total_len(g) <= chars@.len(),
            chars@ == text@,
            i <= lines@.len(),
            total == total_len(g.take(i as int)),
        decreases lines@.len() - i,
    {
        proof {
            assert(g.take(i + 1).drop_last() =~= g.take(i as int));
            lemma_total_len_prefix(g, i + 1);
        }
        total = total + lines[i].len();
        i = i + 1;
    }
    proof {
        assert(g.take(i as int) =~= g);
    }
    if total == 0 || colors.len() == 0 {
        return String::from_str(text);
    }
    let mut out: Vec<Vec<char>> = Vec::new();
    let mut k: usize = 0;
    let mut y: usize = 0;
    let ghost mut rs: Seq<Seq<Seq<char>>> = seq![];
    proof {
        lemma_visible_le_total(g);
    }
    while y < lines.len()
        invariant
            g == rows(lines@),
            total == total_len(g),
            total > 0,
            colors@.len() > 0,
            visible_count(g) <= total,
            y <= lines@.len(),
            k == visible_count(g.take(y as int)),
            out@.len() == y,
            rs.len() == y,
            forall|q: int|
                0 <= q < y ==> painted(g[q], spread_colors(g, colors@, q), #[trigger] rs[q]),
            forall|q: int| 0 <= q < y ==> #[trigger] out@[q]@ == concat(rs[q]),
        decreases lines@.len() - y,
    {
        proof {
            lemma_visible_count_step(g, y as int);
            lemma_visible_prefix(g, y as int + 1);
        }
        let (row, k2, Ghost(ps)) = gradient_row(&lines[y], colors, total, Ghost(g), Ghost(y as int), k);
        out.push(row);
        proof {
            rs = rs.push(ps);
        }
        k = k2;
        y = y + 1;
    }
    proof {
        assert(rows(out@) =~= rs.map_values(|ps: Seq<Seq<char>>| concat(ps)));
    }
    string_of(&join_rows(&out))
}

proof fn lemma_visible_prefix(ls: Seq<Seq<char>>, y: int)
    requires
        0 <= y <= ls.len(),
    ensures
        visible_count(ls.take(y)) <= visible_count(ls),
    decreases ls.len() - y,
{
    if y < ls.len() {
        lemma_visible_count_step(ls, y);
        lemma_visible_prefix(ls, y + 1);
    } else {
        assert(ls.take(y) =~= ls);
    }
}

} // verus!
