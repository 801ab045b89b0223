//! Character-level helpers shared by the whole library.
use vstd::prelude::*;

verus! {

/// The Unicode `White_Space` property, the set that `char::is_whitespace` tests.
pub open spec fn is_white(c: char) -> bool {
    let u = c as u32;
    (0x9 <= u && u <= 0xd) || u == 0x20 || u == 0x85 || u == 0xa0 || u == 0x1680 || (0x2000 <= u
        && u <= 0x200a) || u == 0x2028 || u == 0x2029 || u == 0x202f || u == 0x205f || u == 0x3000
}

/// Whether `c` is a whitespace character.
pub fn is_space(c: char) -> (r: bool)
    ensures
        r == is_white(c),
{
    let u = c as u32;
    (0x9 <= u && u <= 0xd) || u == 0x20 || u == 0x85 || u == 0xa0 || u == 0x1680 || (0x2000 <= u
        && u <= 0x200a) || u == 0x2028 || u == 0x2029 || u == 0x202f || u == 0x205f || u == 0x3000
}

/// The characters of `s`, in order.
pub fn chars_of(s: &str) -> (r: Vec<char>)
    ensures
        r@ == s@,
{
    let mut v: Vec<char> = Vec::new();
    for c in it: s.chars()
        invariant
            v@ == it.seq().take(it.index() as int),
    {
        v.push(c);
    }
    v
}

/// Whether two strings hold the same characters.
pub fn str_eq(a: &str, b: &str) -> (r: bool)
    ensures
        r == (a@ == b@),
{
    let x = chars_of(a);
    let y = chars_of(b);
    if x.len() != y.len() {
        proof {
            assert(a@.len() != b@.len());
        }
        return false;
    }
    let mut i: usize = 0;
    while i < x.len()
        invariant
            i <= x.len(),
            x@.len() == y@.len(),
            x@ == a@,
            y@ == b@,
            x@.take(i as int) == y@.take(i as int),
        decreases x.len() - i,
    {
        if x[i] != y[i] {
            proof {
                assert(x@[i as int] != y@[i as int]);
                assert(x@ != y@);
                assert(a@ != b@);
            }
            return false;
        }
        i = i + 1;
        proof {
            assert(x@.take(i as int) =~= y@.take(i as int)) by {
                assert(x@.take(i - 1) =~= x@.take(i as int).drop_last());
                assert(y@.take(i - 1) =~= y@.take(i as int).drop_last());
            }
        }
    }
    proof {
        assert(x@ =~= x@.take(i as int));
        assert(y@ =~= y@.take(i as int));
    }
    true
}

/// A fresh vector with the same characters.
pub fn copy_chars(v: &Vec<char>) -> (r: Vec<char>)
    ensures
        r@ == v@,
{
    let mut r: Vec<char> = Vec::new();
    let mut i: usize = 0;
    while i < v.len()
        invariant
            i <= v.len(),
            r@ == v@.take(i as int),
        decreases v.len() - i,
    {
        r.push(v[i]);
        i = i + 1;
        proof {
            assert(r@ =~= v@.take(i as int));
        }
    }
    proof {
        assert(v@.take(i as int) =~= v@);
    }
    r
}

/// Relies on `String: FromIterator<&char>`: the string holds exactly the given characters.
#[verifier::external_body]
pub(crate) fn string_of(v: &Vec<char>) -> (r: String)
    ensures
        r@ == v@,
{
    v.iter().collect()
}

} // verus!

verus! {

/// The views of a sequence of character vectors.
pub open spec fn rows(v: Seq<Vec<char>>) -> Seq<Seq<char>> {
    v.map_values(|l: Vec<char>| l@)
}

/// Position of the first line feed in `s` at or after `from`, or `s.len()` if none.
pub open spec fn line_end(s: Seq<char>, from: int) -> int
    decreases s.len() - from,
{
    if from >= s.len() {
        s.len() as int
    } else if s[from] == '\n' {
        from
    } else {
        line_end(s, from + 1)
    }
}

/// A line that ended in a line feed loses one carriage return before it.
pub open spec fn strip_cr(l: Seq<char>) -> Seq<char> {
    if l.len() > 0 && l.last() == '\r' {
        l.drop_last()
    } else {
        l
    }
}

/// The lines of `s` from position `from` on; a final line feed ends the last line
/// and starts no new one.
pub open spec fn lines_from(s: Seq<char>, from: int) -> Seq<Seq<char>>
    decreases s.len() - from, 0int,
{
    if from < 0 || from >= s.len() {
        seq![]
    } else {
        let e = line_end(s, from);
        if from <= e < s.len() {
            seq![strip_cr(s.subrange(from, e))] + lines_from(s, e + 1)
        } else {
            seq![s.subrange(from, s.len() as int)]
        }
    }
}

/// The lines of `s`, split at line feeds (`"a\r\nb\n"` has the lines `a` and `b`).
pub open spec fn lines_of(s: Seq<char>) -> Seq<Seq<char>> {
    lines_from(s, 0)
}

/// The lines joined with line feeds between them.
pub open spec fn join_lines(ls: Seq<Seq<char>>) -> Seq<char>
    decreases ls.len(),
{
    if ls.len() == 0 {
        seq![]
    } else if ls.len() == 1 {
        ls[0]
    } else {
        join_lines(ls.drop_last()) + seq!['\n'] + ls.last()
    }
}

proof fn lemma_line_end_bounds(s: Seq<char>, from: int)
    requires
        0 <= from <= s.len(),
    ensures
        from <= line_end(s, from) <= s.len(),
        line_end(s, from) < s.len() ==> s[line_end(s, from)] == '\n',
    decreases s.len() - from,
{
    if from < s.len() && s[from] != '\n' {
        lemma_line_end_bounds(s, from + 1);
    }
}

/// Splits `s` into its lines.
pub fn split_lines(s: &Vec<char>) -> (r: Vec<Vec<char>>)
    ensures
        rows(r@) == lines_of(s@),
{
    let n = s.len();
    let mut r: Vec<Vec<char>> = Vec::new();
    let mut from: usize = 0;
    while from < n
        invariant
            n == s@.len(),
            from <= n,
            rows(r@) + lines_from(s@, from as int) == lines_of(s@),
        decreases n - from,
    {
        let mut line: Vec<char> = Vec::new();
        let mut e: usize = from;
        while e < n && s[e] != '\n'
            invariant
                from <= e <= n,
                n == s@.len(),
                line_end(s@, from as int) == line_end(s@, e as int),
                line@ == s@.subrange(from as int, e as int),
            decreases n - e,
        {
            line.push(s[e]);
            e = e + 1;
        }
        proof {
            assert(line_end(s@, e as int) == e);
            lemma_line_end_bounds(s@, from as int);
        }
        let ghost old_r = rows(r@);
        if e < n {
            if line.len() > 0 && line[line.len() - 1] == '\r' {
                line.pop();
            }
            r.push(line);
            proof {
                assert(rows(r@) == old_r + seq![strip_cr(s@.subrange(from as int, e as int))]);
                assert(lines_from(s@, from as int) == seq![strip_cr(
                    s@.subrange(from as int, e as int),
                )] + lines_from(s@, e + 1));
                assert(rows(r@) + lines_from(s@, e + 1) == old_r + lines_from(s@, from as int));
            }
            from = e + 1;
        } else {
            r.push(line);
            proof {
                assert(rows(r@) == old_r + seq![s@.subrange(from as int, n as int)]);
                assert(lines_from(s@, n as int) =~= seq![]);
                assert(rows(r@) + lines_from(s@, n as int) == old_r + lines_from(
                    s@,
                    from as int,
                ));
            }
            from = n;
        }
    }
    proof {
        assert(lines_from(s@, from as int) =~= seq![]);
        assert(rows(r@) + seq![] == rows(r@));
    }
    r
}

/// Joins lines with line feeds between them.
pub fn join_rows(ls: &Vec<Vec<char>>) -> (r: Vec<char>)
    ensures
        r@ == join_lines(rows(ls@)),
{
    let mut r: Vec<char> = Vec::new();
    let mut i: usize = 0;
    while i < ls.len()
        invariant
            i <= ls.len(),
            r@ == join_lines(rows(ls@).take(i as int)),
        decreases ls.len() - i,
    {
        if i > 0 {
            r.push('\n');
        }
        let mut j: usize = 0;
        let ghost before = r@;
        while j < ls[i].len()
            invariant
                i < ls.len(),
                j <= ls[i as int]@.len(),
                r@ == before + ls[i as int]@.take(j as int),
            decreases ls[i as int]@.len() - j,
        {
            r.push(ls[i][j]);
            j = j + 1;
            proof {
                assert(r@ =~= before + ls[i as int]@.take(j as int));
            }
        }
        proof {
            let t = rows(ls@).take(i + 1);
            assert(t.drop_last() =~= rows(ls@).take(i as int));
            assert(ls[i as int]@.take(j as int) =~= ls[i as int]@);
            if i == 0 {
                assert(before =~= seq![]);
                assert(r@ =~= join_lines(t));
            } else {
                assert(r@ =~= join_lines(t));
            }
        }
        i = i + 1;
    }
    proof {
        assert(rows(ls@).take(i as int) =~= rows(ls@));
    }
    r
}

/// Number of characters in all lines, whitespace included.
pub open spec fn total_len(ls: Seq<Seq<char>>) -> nat
    decreases ls.len(),
{
    if ls.len() == 0 {
        0
    } else {
        total_len(ls.drop_last()) + ls.last().len()
    }
}

proof fn lemma_total_len_prepend(l: Seq<char>, ls: Seq<Seq<char>>)
    ensures
        total_len(seq![l] + ls) == l.len() + total_len(ls),
    decreases ls.len(),
{
    if ls.len() > 0 {
        assert((seq![l] + ls).drop_last() =~= seq![l] + ls.drop_last());
        assert((seq![l] + ls).last() == ls.last());
        lemma_total_len_prepend(l, ls.drop_last());
    } else {
        assert(seq![l] + ls =~= seq![l]);
        assert(seq![l].drop_last() =~= Seq::<Seq<char>>::empty());
        assert(total_len(seq![l]) == total_len(seq![l].drop_last()) + l.len());
    }
}

/// The lines of a text hold no more characters than the text.
pub proof fn lemma_lines_total(s: Seq<char>, from: int)
    requires
        0 <= from <= s.len(),
    ensures
        total_len(lines_from(s, from)) <= s.len() - from,
    decreases s.len() - from,
{
    if from < s.len() {
        lemma_line_end_bounds(s, from);
        let e = line_end(s, from);
        if e < s.len() {
            lemma_lines_total(s, e + 1);
            lemma_total_len_prepend(strip_cr(s.subrange(from, e)), lines_from(s, e + 1));
        } else {
            lemma_total_len_prepend(s.subrange(from, s.len() as int), seq![]);
            assert(total_len(Seq::<Seq<char>>::empty()) == 0);
            assert(seq![s.subrange(from, s.len() as int)] + Seq::<Seq<char>>::empty() =~= seq![s.subrange(from, s.len() as int)]);
        }
    } else {
        assert(lines_from(s, from) =~= seq![]);
    }
}

/// `s` without its leading whitespace.
pub open spec fn trim_start(s: Seq<char>) -> Seq<char>
    decreases s.len(),
{
    if s.len() > 0 && is_white(s[0]) {
        trim_start(s.drop_first())
    } else {
        s
    }
}

/// `s` without its trailing whitespace.
pub open spec fn trim_end(s: Seq<char>) -> Seq<char>
    decreases s.len(),
{
    if s.len() > 0 && is_white(s.last()) {
        trim_end(s.drop_last())
    } else {
        s
    }
}

/// `s` without leading or trailing whitespace.
pub open spec fn trim(s: Seq<char>) -> Seq<char> {
    trim_end(trim_start(s))
}

/// The characters of `v` without leading or trailing whitespace.
pub fn trim_chars(v: &Vec<char>) -> (r: Vec<char>)
    ensures
        r@ == trim(v@),
{
    let n = v.len();
    let mut i: usize = 0;
    proof {
        assert(v@.subrange(0, n as int) =~= v@);
    }
    while i < n && is_space(v[i])
        invariant
            i <= n == v@.len(),
            trim_start(v@) == trim_start(v@.subrange(i as int, n as int)),
        decreases n - i,
    {
        proof {
            assert(v@.subrange(i as int, n as int).drop_first() =~= v@.subrange(i + 1, n as int));
        }
        i = i + 1;
    }
    let ghost start = v@.subrange(i as int, n as int);
    proof {
        assert(trim_start(start) == start);
    }
    let mut j: usize = n;
    while j > i && is_space(v[j - 1])
        invariant
            i <= j <= n == v@.len(),
            start == v@.subrange(i as int, n as int),
            trim_end(start) == trim_end(v@.subrange(i as int, j as int)),
        decreases j,
    {
        proof {
            assert(v@.subrange(i as int, j as int).drop_last() =~= v@.subrange(i as int, j - 1));
        }
        j = j - 1;
    }
    let mut r: Vec<char> = Vec::new();
    let mut k: usize = i;
    while k < j
        invariant
            i <= k <= j <= n == v@.len(),
            r@ == v@.subrange(i as int, k as int),
        decreases j - k,
    {
        r.push(v[k]);
        k = k + 1;
        proof {
            assert(r@ =~= v@.subrange(i as int, k as int));
        }
    }
    proof {
        assert(trim_end(v@.subrange(i as int, j as int)) == v@.subrange(i as int, j as int));
    }
    r
}

/// The characters `v[from..to]`.
pub fn slice_chars(v: &Vec<char>, from: usize, to: usize) -> (r: Vec<char>)
    requires
        from <= to <= v@.len(),
    ensures
        r@ == v@.subrange(from as int, to as int),
{
    let mut r: Vec<char> = Vec::new();
    let mut k: usize = from;
    while k < to
        invariant
            from <= k <= to <= v@.len(),
            r@ == v@.subrange(from as int, k as int),
        decreases to - k,
    {
        r.push(v[k]);
        k = k + 1;
        proof {
            assert(r@ =~= v@.subrange(from as int, k as int));
        }
    }
    r
}

/// Whether `v[from..from + p.len()]` is `p`.
pub fn matches_at(v: &Vec<char>, from: usize, p: &Vec<char>) -> (r: bool)
    requires
        from <= v@.len(),
    ensures
        r == (from + p@.len() <= v@.len() && v@.subrange(from as int, from + p@.len()) == p@),
{
    if p.len() > v.len() - from {
        return false;
    }
    let mut i: usize = 0;
    while i < p.len()
        invariant
            i <= p@.len(),
            from + p@.len() <= v@.len(),
            v@.subrange(from as int, from + i) == p@.take(i as int),
        decreases p@.len() - i,
    {
        proof {
            assert(from + i < v@.len());
            assert(v@.len() == v.len());
        }
        if v[from + i] != p[i] {
            proof {
                assert(v@.subrange(from as int, from + p@.len())[i as int] != p@[i as int]);
            }
            return false;
        }
        i = i + 1;
        proof {
            assert(v@.subrange(from as int, from + i) =~= p@.take(i as int));
        }
    }
    proof {
        assert(p@.take(i as int) =~= p@);
    }
    true
}

} // verus!
