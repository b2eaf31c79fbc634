use vstd::prelude::*;
use crate::scale::{Unit, label_of};
use crate::window::HORIZONTAL_MARGIN;

verus! {

/// Rows of the viewport kept free for the graph's border and title.
pub const VERTICAL_MARGIN: u32 = 8;

/// Width, in characters, that the unit label is padded to.
pub const LABEL_WIDTH: usize = 6;

/// Viewport width assumed until the interface reports one.
pub const DEFAULT_WIDTH: u32 = 80;

/// Viewport height assumed until the interface reports one.
pub const DEFAULT_HEIGHT: u32 = 24;

/// `n` spaces.
pub open spec fn spaces(n: nat) -> Seq<char> {
    Seq::new(n, |i: int| ' ')
}

/// `s` with spaces in front, up to `n` characters.
pub open spec fn padded(s: Seq<char>, n: nat) -> Seq<char> {
    if s.len() < n {
        spaces((n - s.len()) as nat) + s
    } else {
        s
    }
}

/// `o` with its first characters, as many as `rep` holds, replaced by `rep`.
pub open spec fn replaced_start(o: Seq<char>, rep: Seq<char>) -> Seq<char> {
    if rep.len() < o.len() {
        rep + o.subrange(rep.len() as int, o.len() as int)
    } else {
        rep
    }
}

/// Pads `str_in` on the left with spaces to at least `n` characters.
pub fn left_pad(str_in: String, n: usize) -> (r: String)
    ensures
        r@ == padded(str_in@, n as nat),
{
    let len = str_in.as_str().unicode_len();
    if len >= n {
        return str_in;
    }
    let mut out = String::new();
    let mut k: usize = 0;
    while k < n - len
        invariant
            len < n,
            k <= n - len,
            out@ == spaces(k as nat),
        decreases n - len - k,
    {
        out.append(" ");
        proof {
            reveal_strlit(" ");
        }
        assert(out@ =~= spaces((k + 1) as nat));
        k = k + 1;
    }
    out.append(str_in.as_str());
    out
}

/// Replaces the first characters of `original`, as many as `replacement`
/// holds, with `replacement`; the rest is kept as it is. Counts characters,
/// not bytes.
pub fn replace_at_start(original: &str, replacement: &str) -> (r: String)
    ensures
        r@ == replaced_start(original@, replacement@),
{
    let n = replacement.unicode_len();
    let len = original.unicode_len();
    let out = String::from_str(replacement);
    if n < len {
        out.concat(original.substring_char(n, len))
    } else {
        out
    }
}

/// Lays the padded unit label over the start of the first line of a plot.
pub fn overlay_label(plot: &str, unit: Unit) -> (r: String)
    ensures
        r@ == replaced_start(plot@, padded(label_of(unit), LABEL_WIDTH as nat)),
{
    let label = left_pad(unit.label(), LABEL_WIDTH);
    replace_at_start(plot, label.as_str())
}

/// Replacing the start of a string with a replacement no longer than it keeps
/// the length, puts the replacement first, and leaves every character after it
/// as it was.
pub proof fn lemma_replace_keeps_tail(o: Seq<char>, rep: Seq<char>)
    requires
        rep.len() <= o.len(),
    ensures
        replaced_start(o, rep).len() == o.len(),
        replaced_start(o, rep).subrange(0, rep.len() as int) == rep,
        replaced_start(o, rep).subrange(rep.len() as int, o.len() as int) == o.subrange(
            rep.len() as int,
            o.len() as int,
        ),
{
    let r = replaced_start(o, rep);
    assert(r.subrange(0, rep.len() as int) =~= rep);
    assert(r.subrange(rep.len() as int, o.len() as int) =~= o.subrange(
        rep.len() as int,
        o.len() as int,
    ));
}

/// The size of the drawing area, in character cells.
#[derive(PartialEq, Eq, Structural, Clone, Copy, Debug)]
pub struct ViewportSize {
    pub width: u32,
    pub height: u32,
}

impl ViewportSize {
    /// The size in force: what the interface last reported, with a zero (or no
    /// report at all) replaced by the 80 x 24 default.
    pub fn from_reported(reported: Option<(usize, usize)>) -> (r: ViewportSize)
        requires
            reported matches Some((w, h)) ==> w <= u32::MAX && h <= u32::MAX,
        ensures
            r.width == (match reported {
                Some((w, _)) if w != 0 => w as u32,
                _ => DEFAULT_WIDTH,
            }),
            r.height == (match reported {
                Some((_, h)) if h != 0 => h as u32,
                _ => DEFAULT_HEIGHT,
            }),
    {
        let mut width: u32 = 0;
        let mut height: u32 = 0;
        if let Some((w, h)) = reported {
            width = w as u32;
            height = h as u32;
        }
        if width == 0 {
            width = DEFAULT_WIDTH;
        }
        if height == 0 {
            height = DEFAULT_HEIGHT;
        }
        ViewportSize { width, height }
    }

    /// Width and height of the plot: the viewport less its margins, or zero.
    pub fn graph_size(&self) -> (r: (u32, u32))
        ensures
            r.0 == (if self.width >= HORIZONTAL_MARGIN { self.width - HORIZONTAL_MARGIN } else { 0 }),
            r.1 == (if self.height >= VERTICAL_MARGIN { self.height - VERTICAL_MARGIN } else { 0 }),
    {
        let w = if self.width >= HORIZONTAL_MARGIN {
            self.width - HORIZONTAL_MARGIN
        } else {
            0
        };
        let h = if self.height >= VERTICAL_MARGIN {
            self.height - VERTICAL_MARGIN
        } else {
            0
        };
        (w, h)
    }
}

} // verus!
