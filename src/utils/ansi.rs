//! Measuring text that holds ANSI escape sequences.
use vstd::prelude::*;
use crate::utils::text::{chars_of, string_of};

verus! {

pub open spec fn is_alpha(c: char) -> bool {
    ('a' <= c && c <= 'z') || ('A' <= c && c <= 'Z')
}

/// The position just past the first ASCII letter at or after `j`, or `s.len()`.
pub open spec fn command_end(s: Seq<char>, j: int) -> int
    decreases s.len() - j,
{
    if j >= s.len() {
        s.len() as int
    } else if is_alpha(s[j]) {
        j + 1
    } else {
        command_end(s, j + 1)
    }
}

/// The characters of `s` from `i` on, without escape sequences: an escape
/// followed by `[` is dropped up to and including the next ASCII letter, and a
/// lone escape is dropped by itself.
pub open spec fn stripped_from(s: Seq<char>, i: int) -> Seq<char>
    decreases s.len() - i,
{
    if i < 0 || i >= s.len() {
        seq![]
    } else if s[i] == '\u{1b}' {
        if i + 1 < s.len() && s[i + 1] == '[' {
            let e = command_end(s, i + 2);
            if i < e <= s.len() {
                stripped_from(s, e)
            } else {
                seq![]
            }
        } else {
            stripped_from(s, i + 1)
        }
    } else {
        seq![s[i]] + stripped_from(s, i + 1)
    }
}

proof fn lemma_command_end(s: Seq<char>, j: int)
    requires
        0 <= j <= s.len(),
    ensures
        j <= command_end(s, j) <= s.len(),
    decreases s.len() - j,
{
    if j < s.len() && !is_alpha(s[j]) {
        lemma_command_end(s, j + 1);
    }
}

/// The text without its escape sequences.
pub fn strip_ansi(text: &str) -> (r: String)
    ensures
        r@ == stripped_from(text@, 0),
{
    let s = chars_of(text);
    let n = s.len();
    let mut out: Vec<char> = Vec::new();
    let mut i: usize = 0;
    while i < n
        invariant
            n == s@.len(),
            i <= n,
            out@ + stripped_from(s@, i as int) == stripped_from(s@, 0),
        decreases n - i,
    {
        let c = s[i];
        if c == '\u{1b}' {
            if i + 1 < n && s[i + 1] == '[' {
                let mut j: usize = i + 2;
                while j < n && !(('a' <= s[j] && s[j] <= 'z') || ('A' <= s[j] && s[j] <= 'Z'))
                    invariant
                        i + 2 <= j <= n == s@.len(),
                        command_end(s@, (i + 2) as int) == command_end(s@, j as int),
                    decreases n - j,
                {
                    j = j + 1;
                }
                let e = if j < n {
                    j + 1
                } else {
                    n
                };
                proof {
                    assert(command_end(s@, j as int) == e);
                    lemma_command_end(s@, (i + 2) as int);
                }
                i = e;
            } else {
                i = i + 1;
            }
        } else {
            let ghost before = out@;
            out.push(c);
            proof {
                assert(out@ + stripped_from(s@, i + 1) =~= before + stripped_from(s@, i as int));
            }
            i = i + 1;
        }
    }
    proof {
        assert(out@ + seq![] =~= out@);
    }
    string_of(&out)
}

/// Number of characters the text shows once escape sequences are removed.
pub fn visual_width(text: &str) -> (r: usize)
    ensures
        r == stripped_from(text@, 0).len(),
{
    let s = strip_ansi(text);
    let v = chars_of(s.as_str());
    v.len()
}

} // verus!
