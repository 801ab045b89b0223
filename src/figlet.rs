//! The options of the external art generator and the reading of its font list.
use vstd::prelude::*;
use vstd::string::*;
use crate::utils::text::{chars_of, is_space, is_white, lines_of, rows, split_lines, string_of};

verus! {

/// The first whitespace-delimited word of a line, if it has one.
pub open spec fn first_word(l: Seq<char>) -> Option<Seq<char>> {
    let s = crate::utils::text::trim_start(l);
    if s.len() == 0 {
        None
    } else {
        Some(s.take(word_end(s, 0)))
    }
}

/// Position of the first whitespace character at or after `i`, or `s.len()`.
pub open spec fn word_end(s: Seq<char>, i: int) -> int
    decreases s.len() - i,
{
    if i >= s.len() {
        s.len() as int
    } else if is_white(s[i]) {
        i
    } else {
        word_end(s, i + 1)
    }
}

/// The font names in a listing: the first word of every line after the header.
pub open spec fn font_names(ls: Seq<Seq<char>>) -> Seq<Seq<char>>
    decreases ls.len(),
{
    if ls.len() <= 1 {
        seq![]
    } else {
        font_names(ls.drop_last()) + match first_word(ls.last()) {
            Some(w) => seq![w],
            None => seq![],
        }
    }
}

/// The generator's options: an optional font and extra arguments.
pub struct FigletWrapper {
    font: Option<String>,
    args: Vec<String>,
}

impl FigletWrapper {
    pub closed spec fn spec_font(&self) -> Option<Seq<char>> {
        match self.font {
            Some(f) => Some(f@),
            None => None,
        }
    }

    pub closed spec fn spec_args(&self) -> Seq<Seq<char>> {
        self.args@.map_values(|a: String| a@)
    }

    /// No font and no extra arguments.
    pub fn new() -> (r: Self)
        ensures
            r.spec_font() is None,
            r.spec_args().len() == 0,
    {
        let r = FigletWrapper { font: None, args: Vec::new() };
        proof {
            assert(r.spec_args() =~= seq![]);
        }
        r
    }

    /// The same options with this font.
    pub fn with_font(self, font: Option<&str>) -> (r: Self)
        ensures
            r.spec_font() == match font {
                Some(f) => Some(f@),
                None => None::<Seq<char>>,
            },
            r.spec_args() == self.spec_args(),
    {
        let font = match font {
            Some(f) => Some(String::from_str(f)),
            None => None,
        };
        FigletWrapper { font, ..self }
    }

    /// The same options with these extra arguments.
    pub fn with_args(self, args: Vec<String>) -> (r: Self)
        ensures
            r.spec_font() == self.spec_font(),
            r.spec_args() == args@.map_values(|a: String| a@),
    {
        FigletWrapper { args, ..self }
    }

    /// The generator's arguments for `text`: `-f <font>` when a font is set, the
    /// extra arguments, then the text.
    pub fn command_args(&self, text: &str) -> (r: Vec<String>)
        ensures
            r@.map_values(|a: String| a@) == match self.spec_font() {
                Some(f) => seq!["-f"@, f],
                None => seq![],
            } + self.spec_args() + seq![text@],
    {
        let mut r: Vec<String> = Vec::new();
        match &self.font {
            Some(f) => {
                r.push(String::from_str("-f"));
                r.push(f.clone());
            },
            None => {},
        }
        let ghost head = r@.map_values(|a: String| a@);
        let h = r.len();
        let mut i: usize = 0;
        while i < self.args.len()
            invariant
                i <= self.args@.len(),
                h == head.len(),
                r@.len() == h + i,
                forall|k: int| 0 <= k < h ==> #[trigger] r@[k]@ == head[k],
                forall|k: int| 0 <= k < i ==> #[trigger] r@[h + k]@ == self.args@[k]@,
            decreases self.args@.len() - i,
        {
            r.push(self.args[i].clone());
            i = i + 1;
        }
        r.push(String::from_str(text));
        proof {
            let want = match self.spec_font() {
                Some(f) => seq!["-f"@, f],
                None => seq![],
            } + self.spec_args() + seq![text@];
            assert(head == match self.spec_font() {
                Some(f) => seq!["-f"@, f],
                None => seq![],
            });
            let got = r@.map_values(|a: String| a@);
            assert forall|k: int| 0 <= k < want.len() implies #[trigger] got[k] == want[k] by {
                if k < h {
                } else if k < h + i {
                    assert(r@[h + (k - h)]@ == self.args@[k - h]@);
                } else {
                }
            }
            assert(got =~= want);
        }
        r
    }
}

impl Default for FigletWrapper {
    fn default() -> (r: Self)
        ensures
            r.spec_font() is None,
            r.spec_args().len() == 0,
    {
        Self::new()
    }
}

fn first_word_exec(l: &Vec<char>) -> (r: Option<Vec<char>>)
    ensures
        match first_word(l@) {
            Some(w) => r matches Some(v) && v@ == w,
            None => r is None,
        },
{
    let n = l.len();
    let mut i: usize = 0;
    proof {
        assert(l@.subrange(0, n as int) =~= l@);
    }
    while i < n && is_space(l[i])
        invariant
            i <= n == l@.len(),
            crate::utils::text::trim_start(l@) == crate::utils::text::trim_start(
                l@.subrange(i as int, n as int),
            ),
        decreases n - i,
    {
        proof {
            assert(l@.subrange(i as int, n as int).drop_first() =~= l@.subrange(i + 1, n as int));
        }
        i = i + 1;
    }
    let ghost s = l@.subrange(i as int, n as int);
    if i == n {
        return None;
    }
    let mut j: usize = i;
    while j < n && !is_space(l[j])
        invariant
            i <= j <= n == l@.len(),
            s == l@.subrange(i as int, n as int),
            word_end(s, 0) == word_end(s, j - i),
        decreases n - j,
    {
        j = j + 1;
    }
    let mut w: Vec<char> = Vec::new();
    let mut k: usize = i;
    while k < j
        invariant
            i <= k <= j <= n == l@.len(),
            w@ == l@.subrange(i as int, k as int),
        decreases j - k,
    {
        w.push(l[k]);
        k = k + 1;
        proof {
            assert(w@ =~= l@.subrange(i as int, k as int));
        }
    }
    proof {
        assert(word_end(s, j - i) == j - i);
        assert(s.take(j - i) =~= w@);
    }
    Some(w)
}

/// The font names in the generator's font listing (`figlet -l`): the first word of
/// each line after the header line.
pub fn fonts_in(listing: &str) -> (r: Vec<String>)
    ensures
        r@.map_values(|a: String| a@) == font_names(lines_of(listing@)),
{
    let chars = chars_of(listing);
    let lines = split_lines(&chars);
    let ghost ls = rows(lines@);
    let mut r: Vec<String> = Vec::new();
    if lines.len() <= 1 {
        proof {
            assert(r@.map_values(|a: String| a@) =~= font_names(ls));
        }
        return r;
    }
    let mut i: usize = 1;
    proof {
        assert(ls.take(1).len() == 1);
        assert(r@.map_values(|a: String| a@) =~= font_names(ls.take(1)));
    }
    while i < lines.len()
        invariant
            ls == rows(lines@),
            1 <= i <= lines@.len(),
            r@.map_values(|a: String| a@) == font_names(ls.take(i as int)),
        decreases lines@.len() - i,
    {
        proof {
            assert(ls.take(i + 1).drop_last() =~= ls.take(i as int));
        }
        let ghost before = r@.map_values(|a: String| a@);
        match first_word_exec(&lines[i]) {
            Some(w) => {
                r.push(string_of(&w));
            },
            None => {},
        }
        proof {
            assert(r@.map_values(|a: String| a@) =~= font_names(ls.take(i + 1)));
        }
        i = i + 1;
    }
    proof {
        assert(ls.take(i as int) =~= ls);
    }
    r
}

} // verus!
