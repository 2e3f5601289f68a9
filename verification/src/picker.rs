//! The interactive file picker's state: a free-text filter, a selection
//! cursor, and the filtered candidate list, with the transitions typing
//! drives. The picker is ephemeral: opened over a freshly scanned candidate
//! list, closed either by choosing a file or by dismissal. Scanning the file
//! system and drawing the list happen outside the library.

use vstd::prelude::*;

use crate::files::{basename_of, basename_pos, filter_paths, matches_filter};
use vstd::string::StringExecFns;

verus! {

/// A character the filter accepts: printable ASCII.
pub open spec fn printable_ascii(c: char) -> bool {
    32 <= (c as u32) <= 126
}

/// How many candidate rows fit in a terminal `height` rows tall: all but the
/// six rows the picker's header and margins use.
pub open spec fn max_display_spec(height: int) -> int {
    if height >= 6 {
        height - 6
    } else {
        0
    }
}

/// First candidate shown: half a window above the cursor, clamped to the top.
pub open spec fn viewport_start_spec(sel: int, height: int) -> int {
    if sel > max_display_spec(height) / 2 {
        sel - max_display_spec(height) / 2
    } else {
        0
    }
}

/// One past the last candidate shown: a full window below the start, clamped
/// to the end of the list.
pub open spec fn viewport_end_spec(sel: int, height: int, len: int) -> int {
    let s = viewport_start_spec(sel, height);
    if len - s > max_display_spec(height) {
        s + max_display_spec(height)
    } else {
        len
    }
}

/// State of one file-picker session.
pub struct FilePicker {
    /// The typed filter text.
    pub filter: String,
    /// The cursor into `candidates`.
    pub selected_index: usize,
    /// The candidate paths the cursor moves over.
    pub candidates: Vec<String>,
}

impl FilePicker {
    /// The picker's invariant: the cursor stays inside the candidate list,
    /// or at zero when the list is empty.
    pub open spec fn wf(self) -> bool {
        if self.candidates@.len() == 0 {
            self.selected_index == 0
        } else {
            self.selected_index < self.candidates@.len()
        }
    }

    /// A fresh picker: empty filter, cursor at the top, no candidates yet.
    pub fn new() -> (r: Self)
        ensures
            r.filter@ == Seq::<char>::empty(),
            r.selected_index == 0,
            r.candidates@ == Seq::<String>::empty(),
            r.wf(),
    {
        FilePicker { filter: String::new(), selected_index: 0, candidates: Vec::new() }
    }

    /// Type one character: a printable ASCII character is appended to the
    /// filter and the cursor returns to the top; any other character is
    /// ignored.
    pub fn type_char(&mut self, c: char)
        ensures
            printable_ascii(c) ==> final(self).filter@ == old(self).filter@.push(c)
                && final(self).selected_index == 0,
            !printable_ascii(c) ==> *final(self) == *old(self),
            final(self).candidates == old(self).candidates,
            old(self).wf() ==> final(self).wf(),
    {
        let code = c as u32;
        if 32 <= code && code <= 126 {
            self.filter.push(c);
            self.selected_index = 0;
        }
    }

    /// Erase the last filter character, if any, and return the cursor to the
    /// top.
    pub fn backspace(&mut self)
        ensures
            final(self).filter@ == (if old(self).filter@.len() > 0 {
                old(self).filter@.drop_last()
            } else {
                old(self).filter@
            }),
            final(self).selected_index == 0,
            final(self).candidates == old(self).candidates,
            old(self).wf() ==> final(self).wf(),
    {
        self.filter.pop();
        self.selected_index = 0;
    }

    /// Move the cursor up one candidate; at the top it stays.
    pub fn move_up(&mut self)
        ensures
            final(self).selected_index == (if old(self).selected_index > 0 {
                old(self).selected_index - 1
            } else {
                0
            }),
            final(self).filter == old(self).filter,
            final(self).candidates == old(self).candidates,
            old(self).wf() ==> final(self).wf(),
    {
        if self.selected_index > 0 {
            self.selected_index = self.selected_index - 1;
        }
    }

    /// Move the cursor down one candidate; at the last one it stays.
    pub fn move_down(&mut self)
        ensures
            final(self).selected_index as int == (if old(self).selected_index + 1 < old(
                self,
            ).candidates@.len() {
                old(self).selected_index + 1
            } else {
                old(self).selected_index as int
            }),
            final(self).filter == old(self).filter,
            final(self).candidates == old(self).candidates,
            old(self).wf() ==> final(self).wf(),
    {
        if self.candidates.len() > 0 && self.selected_index < self.candidates.len() - 1 {
            self.selected_index = self.selected_index + 1;
        }
    }

    /// Recompute the candidate list from a fresh scan: all of `all_files`
    /// when the filter is empty, otherwise those matching the filter. The
    /// cursor is clamped into the new list.
    pub fn refresh(&mut self, all_files: Vec<String>)
        ensures
            final(self).candidates@ == (if old(self).filter@.len() == 0 {
                all_files@
            } else {
                all_files@.filter(|f: String| matches_filter(f, old(self).filter@))
            }),
            final(self).filter == old(self).filter,
            final(self).selected_index as int == (if final(self).candidates@.len() == 0 {
                0
            } else if old(self).selected_index < final(self).candidates@.len() {
                old(self).selected_index as int
            } else {
                final(self).candidates@.len() - 1
            }),
            final(self).wf(),
    {
        if self.filter.as_str().is_empty() {
            self.candidates = all_files;
        } else {
            self.candidates = filter_paths(&all_files, self.filter.as_str());
        }
        if self.candidates.len() == 0 {
            self.selected_index = 0;
        } else if self.selected_index >= self.candidates.len() {
            self.selected_index = self.candidates.len() - 1;
        }
    }

    /// The candidate under the cursor, or `None` when the list is empty.
    pub fn selected(&self) -> (r: Option<&String>)
        requires
            self.wf(),
        ensures
            (r is Some <==> self.candidates@.len() > 0),
            r is Some ==> *r.unwrap() == self.candidates@[self.selected_index as int],
    {
        if self.candidates.len() > 0 {
            Some(&self.candidates[self.selected_index])
        } else {
            None
        }
    }

    /// The window of candidates to draw in a terminal `height` rows tall:
    /// its half-open bounds `[start, end)`. At most `height - 6` rows are
    /// shown, centred on the cursor and clamped to the list.
    pub fn viewport(&self, height: u16) -> (r: (usize, usize))
        requires
            self.wf(),
        ensures
            r.0 == viewport_start_spec(self.selected_index as int, height as int),
            r.1 == viewport_end_spec(
                self.selected_index as int,
                height as int,
                self.candidates@.len() as int,
            ),
            r.0 <= r.1 <= self.candidates@.len(),
    {
        let max_display: usize = if height >= 6 {
            (height - 6) as usize
        } else {
            0
        };
        let half = max_display / 2;
        let start: usize = if self.selected_index > half {
            self.selected_index - half
        } else {
            0
        };
        let len = self.candidates.len();
        let end: usize = if len - start > max_display {
            start + max_display
        } else {
            len
        };
        (start, end)
    }
}

/// The name a candidate is listed under: the path's final component,
/// shortened with a leading ellipsis when the terminal is too narrow.
pub open spec fn display_name_spec(p: Seq<char>, width: int) -> Seq<char> {
    let b = basename_of(p);
    let avail = if width >= 10 {
        width - 10
    } else {
        0
    };
    if b.len() <= avail {
        b
    } else {
        "..."@ + b.skip(b.len() - (if width >= 13 {
            width - 13
        } else {
            0
        }))
    }
}

/// The name a candidate is listed under, computed for a terminal `width`
/// columns wide.
pub fn display_name(path: &str, width: u16) -> (r: String)
    ensures
        r@ == display_name_spec(path@, width as int),
{
    let n: usize = path.unicode_len();
    let bs: usize = basename_pos(path);
    let base_len: usize = n - bs;
    let ghost base = basename_of(path@);
    proof {
        assert(base =~= path@.subrange(bs as int, n as int));
    }
    let avail: usize = if width >= 10 {
        (width - 10) as usize
    } else {
        0
    };
    if base_len <= avail {
        let b = path.substring_char(bs, n);
        proof {
            assert(b@ =~= base);
        }
        String::from_str(b)
    } else {
        let keep: usize = if width >= 13 {
            (width - 13) as usize
        } else {
            0
        };
        let tail = path.substring_char(n - keep, n);
        proof {
            assert(tail@ =~= base.skip(base.len() - keep));
        }
        let mut s = String::from_str("...");
        s.append(tail);
        s
    }
}

} // verus!
