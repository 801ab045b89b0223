//! The terminal surface as plain values: its size, whether it was set up, and
//! where each line of a frame is painted.
use vstd::prelude::*;
use crate::animation::effects::trunc_div;
use crate::utils::ansi::{stripped_from, visual_width};
use crate::utils::ascii::max_len;
use crate::utils::text::{chars_of, lines_of, rows, split_lines, string_of};

verus! {

/// A line of text to paint at column `x`, row `y`.
#[derive(Debug)]
pub struct Placement {
    pub x: u16,
    pub y: u16,
    pub text: String,
}

/// `n` as a `u16`, saturating.
pub open spec fn sat16(n: int) -> int {
    if n > 65535 {
        65535
    } else if n < 0 {
        0
    } else {
        n
    }
}

/// `a - b`, or 0 when `b` is larger.
pub open spec fn sub0(a: int, b: int) -> int {
    if a > b {
        a - b
    } else {
        0
    }
}

/// Line `i` of a block of lines centred on a `w` by `h` screen: the block is centred,
/// and each line is centred within the block's width.
pub open spec fn centered_at(ls: Seq<Seq<char>>, w: int, h: int, i: int) -> (int, int) {
    let mw = sat16(max_len(ls) as int);
    let start_x = sub0(w, mw) / 2;
    let start_y = sub0(h, sat16(ls.len() as int)) / 2;
    (start_x + sub0(mw, sat16(ls[i].len() as int)) / 2, sat16(start_y + i))
}

/// Widest line of the block once escape sequences are removed.
pub open spec fn visual_max(ls: Seq<Seq<char>>) -> int
    decreases ls.len(),
{
    if ls.len() == 0 {
        0
    } else {
        let m = visual_max(ls.drop_last());
        let v = stripped_from(ls.last(), 0).len() as int;
        if v > m {
            v
        } else {
            m
        }
    }
}

/// The top-left corner of a block moved by `(ox, oy)` from the centre of a `w` by
/// `h` screen, held to the screen's first row and column.
pub open spec fn offset_origin(ls: Seq<Seq<char>>, w: int, h: int, ox: int, oy: int) -> (int, int) {
    let bx = trunc_div(w - visual_max(ls), 2);
    let by = trunc_div(h - ls.len(), 2);
    (sat16(bx + ox), sat16(by + oy))
}

/// The size of the terminal and whether it has been set up for drawing.
pub struct TerminalManager {
    width: u16,
    height: u16,
    active: bool,
}

impl TerminalManager {
    pub closed spec fn spec_size(&self) -> (u16, u16) {
        (self.width, self.height)
    }

    /// Whether the terminal is set up and still owes a clean-up.
    pub closed spec fn spec_active(&self) -> bool {
        self.active
    }

    /// A terminal of this size, not set up.
    pub fn new(width: u16, height: u16) -> (r: Self)
        ensures
            r.spec_size() == (width, height),
            !r.spec_active(),
    {
        TerminalManager { width, height, active: false }
    }

    /// Records that raw mode and the alternate screen are on.
    pub fn setup(&mut self)
        ensures
            final(self).spec_active(),
            final(self).spec_size() == old(self).spec_size(),
    {
        self.active = true;
    }

    /// Whether the terminal must be restored now; after this it no longer must, so
    /// the restoring happens once however often this is called.
    pub fn cleanup(&mut self) -> (r: bool)
        ensures
            r == old(self).spec_active(),
            !final(self).spec_active(),
            final(self).spec_size() == old(self).spec_size(),
    {
        let was = self.active;
        self.active = false;
        was
    }

    /// The size, columns then rows.
    pub fn get_size(&self) -> (r: (u16, u16))
        ensures
            r == self.spec_size(),
    {
        (self.width, self.height)
    }

    /// Records a new size.
    pub fn refresh_size(&mut self, width: u16, height: u16)
        ensures
            final(self).spec_size() == (width, height),
            final(self).spec_active() == old(self).spec_active(),
    {
        self.width = width;
        self.height = height;
    }

    /// Where each line of `text` goes to be centred on the screen.
    pub fn print_centered(&self, text: &str) -> (r: Vec<Placement>)
        ensures
            r@.len() == lines_of(text@).len(),
            forall|i: int|
                0 <= i < r@.len() ==> {
                    let p = #[trigger] r@[i];
                    &&& (p.x as int, p.y as int) == centered_at(
                        lines_of(text@),
                        self.spec_size().0 as int,
                        self.spec_size().1 as int,
                        i,
                    )
                    &&& p.text@ == lines_of(text@)[i]
                },
    {
        let chars = chars_of(text);
        let lines = split_lines(&chars);
        let ghost ls = rows(lines@);
        let mut mw: usize = 0;
        let mut i: usize = 0;
        while i < lines.len()
            invariant
                ls == rows(lines@),
                i <= lines@.len(),
                mw == max_len(ls.take(i as int)),
            decreases lines@.len() - i,
        {
            proof {
                assert(ls.take(i + 1).drop_last() =~= ls.take(i as int));
            }
            if lines[i].len() > mw {
                mw = lines[i].len();
            }
            i = i + 1;
        }
        proof {
            assert(ls.take(i as int) =~= ls);
        }
        let mw16: u16 = if mw > 65535 {
            65535
        } else {
            mw as u16
        };
        let h16: u16 = if lines.len() > 65535 {
            65535
        } else {
            lines.len() as u16
        };
        let start_x: u16 = self.width.saturating_sub(mw16) / 2;
        let start_y: u16 = self.height.saturating_sub(h16) / 2;
        let mut r: Vec<Placement> = Vec::new();
        let mut k: usize = 0;
        while k < lines.len()
            invariant
                ls == rows(lines@),
                ls == lines_of(text@),
                k <= lines@.len(),
                mw16 == sat16(max_len(ls) as int),
                start_x == sub0(self.width as int, mw16 as int) / 2,
                start_y == sub0(self.height as int, h16 as int) / 2,
                h16 == sat16(ls.len() as int),
                r@.len() == k,
                forall|q: int|
                    0 <= q < k ==> {
                        let p = #[trigger] r@[q];
                        &&& (p.x as int, p.y as int) == centered_at(
                            ls,
                            self.width as int,
                            self.height as int,
                            q,
                        )
                        &&& p.text@ == ls[q]
                    },
            decreases lines@.len() - k,
        {
            let lw = lines[k].len();
            let lw16: u16 = if lw > 65535 {
                65535
            } else {
                lw as u16
            };
            let x: u16 = start_x + mw16.saturating_sub(lw16) / 2;
            let y: u16 = if k > 65535 || start_y as usize + k > 65535 {
                65535
            } else {
                (start_y as usize + k) as u16
            };
            r.push(Placement { x, y, text: string_of(&lines[k]) });
            k = k + 1;
        }
        r
    }

    /// Where each line of `text` goes when the block is moved by `(ox, oy)` from
    /// the centre; lines that would fall below the screen are left out.
    #[verifier::loop_isolation(false)]
    pub fn print_offset(&self, text: &str, ox: i32, oy: i32) -> (r: Vec<Placement>)
        ensures
            ({
                let ls = lines_of(text@);
                let (x, y) = offset_origin(
                    ls,
                    self.spec_size().0 as int,
                    self.spec_size().1 as int,
                    ox as int,
                    oy as int,
                );
                &&& r@.len() == (if self.spec_size().1 > y {
                    if ls.len() < self.spec_size().1 - y {
                        ls.len() as int
                    } else {
                        self.spec_size().1 - y
                    }
                } else {
                    0
                })
                &&& forall|i: int|
                    0 <= i < r@.len() ==> {
                        let p = #[trigger] r@[i];
                        &&& p.x == x
                        &&& p.y == y + i
                        &&& p.text@ == ls[i]
                    }
            }),
    {
        let chars = chars_of(text);
        let lines = split_lines(&chars);
        let ghost ls = rows(lines@);
        let mut vm: usize = 0;
        let mut i: usize = 0;
        while i < lines.len()
            invariant
                ls == rows(lines@),
                i <= lines@.len(),
                vm == visual_max(ls.take(i as int)),
            decreases lines@.len() - i,
        {
            proof {
                assert(ls.take(i + 1).drop_last() =~= ls.take(i as int));
            }
            let s = string_of(&lines[i]);
            let v = visual_width(s.as_str());
            if v > vm {
                vm = v;
            }
            i = i + 1;
        }
        proof {
            assert(ls.take(i as int) =~= ls);
        }
        let bx: i128 = half_trunc(self.width as i128 - vm as i128);
        let by: i128 = half_trunc(self.height as i128 - lines.len() as i128);
        let x = clamp16(bx + ox as i128);
        let y = clamp16(by + oy as i128);
        let room: usize = if self.height > y {
            (self.height - y) as usize
        } else {
            0
        };
        let mut r: Vec<Placement> = Vec::new();
        let mut k: usize = 0;
        while k < lines.len() && k < room
            invariant
                ls == rows(lines@),
                ls == lines_of(text@),
                k <= lines@.len(),
                room == (if self.height > y { self.height - y } else { 0 }),
                k <= room,
                r@.len() == k,
                forall|q: int|
                    0 <= q < k ==> {
                        let p = #[trigger] r@[q];
                        &&& p.x == x
                        &&& p.y == y + q
                        &&& p.text@ == ls[q]
                    },
            decreases lines@.len() - k,
        {
            r.push(Placement { x, y: y + k as u16, text: string_of(&lines[k]) });
            k = k + 1;
        }
        proof {
            let w = self.width as int;
            let h = self.height as int;
            assert(vm == visual_max(ls));
            assert(bx == trunc_div(w - visual_max(ls), 2));
            assert(by == trunc_div(h - ls.len(), 2));
            assert((x as int, y as int) == offset_origin(ls, w, h, ox as int, oy as int));
        }
        r
    }
}

fn half_trunc(v: i128) -> (r: i128)
    requires
        -0x1_0000_0000_0000_0000 <= v <= 0x1_0000_0000_0000_0000,
    ensures
        r == trunc_div(v as int, 2),
{
    if v >= 0 {
        v / 2
    } else {
        -((-v) / 2)
    }
}

fn clamp16(v: i128) -> (r: u16)
    ensures
        r == sat16(v as int),
{
    if v > 65535 {
        65535
    } else if v < 0 {
        0
    } else {
        v as u16
    }
}

} // verus!
