//! The renderer's layout arithmetic: where the current word, its pivot
//! character, the status line and the control legend sit on a terminal of a
//! given size. Everything here is a pure computation from engine state and
//! terminal dimensions to positioned text; the escape sequences that draw it
//! are emitted outside the library.

use vstd::prelude::*;

use crate::engine::PivotStrategy;
use vstd::string::StringExecFns;

verus! {

/// `a - b`, saturating at zero.
pub open spec fn sub0(a: int, b: int) -> int {
    if a >= b {
        a - b
    } else {
        0
    }
}

/// Index of the highlighted pivot character in a word `len` characters long.
pub open spec fn pivot_index_spec(len: int, strat: PivotStrategy) -> int {
    match strat {
        PivotStrategy::Simple => len / 2,
        PivotStrategy::Weighted => if len > 4 {
            len / 3 + 1
        } else {
            len / 2
        },
    }
}

/// Index of the highlighted pivot character in a word `len` characters long.
pub fn pivot_index(len: usize, strat: PivotStrategy) -> (r: usize)
    ensures
        r == pivot_index_spec(len as int, strat),
{
    match strat {
        PivotStrategy::Simple => len / 2,
        PivotStrategy::Weighted => if len > 4 {
            len / 3 + 1
        } else {
            len / 2
        },
    }
}

/// Column where content `content` characters wide starts so that it sits
/// centred in an extent `extent` columns wide; zero when it does not fit.
pub open spec fn center_col_spec(extent: int, content: int) -> int {
    if extent / 2 >= content / 2 {
        extent / 2 - content / 2
    } else {
        0
    }
}

/// Column where content `content` characters wide starts, centred in a
/// terminal `extent` columns wide.
pub fn center_col(extent: u16, content: usize) -> (r: u16)
    ensures
        r as int == center_col_spec(extent as int, content as int),
{
    let half_extent: usize = (extent / 2) as usize;
    let half_content: usize = content / 2;
    if half_extent >= half_content {
        (half_extent - half_content) as u16
    } else {
        0
    }
}

/// A column capped to what terminal coordinates can address.
pub open spec fn cap_col(c: int) -> u16 {
    if c <= u16::MAX {
        c as u16
    } else {
        u16::MAX
    }
}

/// One positioned character of the rendered word.
#[derive(Clone, Copy, PartialEq, Eq, Structural, Debug)]
pub struct Glyph {
    /// Terminal column.
    pub col: u16,
    /// Terminal row.
    pub row: u16,
    /// The character to draw.
    pub ch: char,
    /// Whether this is the pivot character, drawn highlighted.
    pub is_pivot: bool,
}

/// The glyph for character `i` of the word `w` on a `width` x `height`
/// terminal: the word sits centred on the middle row, and exactly the pivot
/// character is highlighted.
pub open spec fn glyph_spec(
    w: Seq<char>,
    width: int,
    height: int,
    strat: PivotStrategy,
    i: int,
) -> Glyph {
    Glyph {
        col: cap_col(center_col_spec(width, w.len() as int) + i),
        row: (height / 2) as u16,
        ch: w[i],
        is_pivot: i == pivot_index_spec(w.len() as int, strat),
    }
}

/// Lay out the current word for drawing: one positioned glyph per character,
/// centred on the middle row, with the pivot marked. An empty word yields no
/// glyphs, and a word wider than the terminal starts at column zero.
pub fn word_glyphs(word: &str, width: u16, height: u16, strat: PivotStrategy) -> (r: Vec<Glyph>)
    ensures
        r@.len() == word@.len(),
        forall|i: int|
            0 <= i < word@.len() ==> r@[i] == glyph_spec(
                word@,
                width as int,
                height as int,
                strat,
                i,
            ),
{
    let n: usize = word.unicode_len();
    let start: u16 = center_col(width, n);
    let pivot: usize = pivot_index(n, strat);
    let row: u16 = height / 2;
    let mut r: Vec<Glyph> = Vec::new();
    let mut i: usize = 0;
    while i < n
        invariant
            n == word@.len(),
            start as int == center_col_spec(width as int, n as int),
            pivot == pivot_index_spec(n as int, strat),
            row == height / 2,
            i <= n,
            r@.len() == i,
            forall|k: int|
                0 <= k < i ==> r@[k] == glyph_spec(word@, width as int, height as int, strat, k),
        decreases n - i,
    {
        let ch = word.get_char(i);
        let col: u16 = if i >= 65536 {
            u16::MAX
        } else if start as usize + i > 65535 {
            u16::MAX
        } else {
            (start as usize + i) as u16
        };
        r.push(Glyph { col, row, ch, is_pivot: i == pivot });
        i = i + 1;
    }
    r
}

/// The key label of entry `k` of the control legend.
pub open spec fn legend_key(k: int) -> Seq<char> {
    if k == 0 {
        "[Space]"@
    } else if k == 1 {
        "[+/-]"@
    } else if k == 2 {
        "[\u{2191}/\u{2190}]"@
    } else if k == 3 {
        "[\u{2193}/\u{2192}]"@
    } else if k == 4 {
        "[r]"@
    } else if k == 5 {
        "[o]"@
    } else {
        "[q]"@
    }
}

/// The action label of entry `k` of the control legend.
pub open spec fn legend_action(k: int) -> Seq<char> {
    if k == 0 {
        "Play/Pause"@
    } else if k == 1 {
        "WPM"@
    } else if k == 2 {
        "Prev"@
    } else if k == 3 {
        "Next"@
    } else if k == 4 {
        "Restart"@
    } else if k == 5 {
        "Open"@
    } else {
        "Quit"@
    }
}

/// Characters entry `k` occupies when drawn: the key, then the action with a
/// space on each side.
pub open spec fn legend_piece_len(k: int) -> int {
    legend_key(k).len() + legend_action(k).len() + 2int
}

/// Characters the first `k` legend entries occupy, two-space separators
/// included.
pub open spec fn legend_width_upto(k: int) -> int
    decreases k,
{
    if k <= 0 {
        0
    } else if k == 1 {
        legend_piece_len(0)
    } else {
        legend_width_upto(k - 1) + 2 + legend_piece_len(k - 1)
    }
}

/// Characters the whole seven-entry legend occupies.
pub open spec fn legend_width() -> int {
    legend_width_upto(7)
}

/// The seven control-legend entries, in drawing order: key label and action
/// label of each.
pub fn legend_entries() -> (r: Vec<(String, String)>)
    ensures
        r@.len() == 7,
        forall|k: int| 0 <= k < 7 ==> (#[trigger] r@[k]).0@ == legend_key(k),
        forall|k: int| 0 <= k < 7 ==> (#[trigger] r@[k]).1@ == legend_action(k),
{
    let mut r: Vec<(String, String)> = Vec::new();
    r.push((String::from_str("[Space]"), String::from_str("Play/Pause")));
    r.push((String::from_str("[+/-]"), String::from_str("WPM")));
    r.push((String::from_str("[\u{2191}/\u{2190}]"), String::from_str("Prev")));
    r.push((String::from_str("[\u{2193}/\u{2192}]"), String::from_str("Next")));
    r.push((String::from_str("[r]"), String::from_str("Restart")));
    r.push((String::from_str("[o]"), String::from_str("Open")));
    r.push((String::from_str("[q]"), String::from_str("Quit")));
    r
}

/// Column where the control legend starts, centred for a terminal `width`
/// columns wide.
pub fn legend_col(width: u16) -> (r: u16)
    ensures
        r as int == center_col_spec(width as int, legend_width()),
{
    proof {
        reveal_with_fuel(legend_width_upto, 8);
        reveal_strlit("[Space]");
        reveal_strlit("[+/-]");
        reveal_strlit("[\u{2191}/\u{2190}]");
        reveal_strlit("[\u{2193}/\u{2192}]");
        reveal_strlit("[r]");
        reveal_strlit("[o]");
        reveal_strlit("[q]");
        reveal_strlit("Play/Pause");
        reveal_strlit("WPM");
        reveal_strlit("Prev");
        reveal_strlit("Next");
        reveal_strlit("Restart");
        reveal_strlit("Open");
        reveal_strlit("Quit");
        assert(legend_width() == 93);
    }
    center_col(width, 93)
}

/// Row of the control legend: two rows above the bottom edge.
pub fn legend_row(height: u16) -> (r: u16)
    ensures
        r as int == sub0(height as int, 2),
{
    if height >= 2 {
        height - 2
    } else {
        0
    }
}

/// Column where the status line starts, centred for a terminal `width`
/// columns wide.
pub fn status_col(status: &str, width: u16) -> (r: u16)
    ensures
        r as int == center_col_spec(width as int, status@.len() as int),
{
    center_col(width, status.unicode_len())
}

/// Row of the status line: one row above the control legend.
pub fn status_row(height: u16) -> (r: u16)
    ensures
        r as int == sub0(height as int, 3),
{
    if height >= 3 {
        height - 3
    } else {
        0
    }
}

} // verus!
