//! Text the renderer shows beside the word: decimal numbers, the
//! `mm:ss.mmm` form of a duration, and the one-line playback status.
//! Everything here is built character by character, so each function's
//! contract pins the exact text.

use vstd::prelude::*;

use vstd::string::StringExecFns;

verus! {

/// The digit character for `d` in `0 ..= 9`.
pub open spec fn digit_char(d: int) -> char {
    if d == 0 {
        '0'
    } else if d == 1 {
        '1'
    } else if d == 2 {
        '2'
    } else if d == 3 {
        '3'
    } else if d == 4 {
        '4'
    } else if d == 5 {
        '5'
    } else if d == 6 {
        '6'
    } else if d == 7 {
        '7'
    } else if d == 8 {
        '8'
    } else {
        '9'
    }
}

/// The decimal numeral for `n`, most significant digit first, without
/// leading zeros (the numeral of zero is `0`).
pub open spec fn dec_rep(n: int) -> Seq<char>
    recommends
        n >= 0,
    decreases n,
{
    if n < 10 {
        seq![digit_char(n)]
    } else {
        dec_rep(n / 10).push(digit_char(n % 10))
    }
}

/// The numeral of `n` padded with zeros to at least two digits.
pub open spec fn pad2(n: int) -> Seq<char> {
    if n < 10 {
        seq!['0'] + dec_rep(n)
    } else {
        dec_rep(n)
    }
}

/// The numeral of `n` padded with zeros to at least three digits.
pub open spec fn pad3(n: int) -> Seq<char> {
    if n < 10 {
        seq!['0', '0'] + dec_rep(n)
    } else if n < 100 {
        seq!['0'] + dec_rep(n)
    } else {
        dec_rep(n)
    }
}

/// A duration in whole milliseconds, displayed as minutes, seconds and
/// milliseconds.
pub struct FormatDuration(pub u64);

/// The `mm:ss.mmm` text for `ms` milliseconds: minutes and seconds padded to
/// two digits, milliseconds to three.
pub open spec fn mmssmmm_spec(ms: int) -> Seq<char> {
    pad2(ms / 60000) + ":"@ + pad2((ms / 1000) % 60) + "."@ + pad3(ms % 1000)
}

/// The digit character for `d`.
fn digit(d: u64) -> (c: char)
    requires
        d < 10,
    ensures
        c == digit_char(d as int),
{
    match d {
        0 => '0',
        1 => '1',
        2 => '2',
        3 => '3',
        4 => '4',
        5 => '5',
        6 => '6',
        7 => '7',
        8 => '8',
        _ => '9',
    }
}

/// Append the decimal numeral of `n` to `s`.
pub fn push_decimal(s: &mut String, n: u64)
    ensures
        final(s)@ == old(s)@ + dec_rep(n as int),
    decreases n,
{
    if n < 10 {
        s.push(digit(n));
        proof {
            assert(s@ =~= old(s)@ + dec_rep(n as int));
        }
    } else {
        push_decimal(s, n / 10);
        s.push(digit(n % 10));
        proof {
            assert(s@ =~= old(s)@ + dec_rep(n as int));
        }
    }
}

/// Append the numeral of `n`, zero-padded to at least two digits, to `s`.
pub fn push_pad2(s: &mut String, n: u64)
    ensures
        final(s)@ == old(s)@ + pad2(n as int),
{
    if n < 10 {
        s.push('0');
    }
    push_decimal(s, n);
    proof {
        assert(s@ =~= old(s)@ + pad2(n as int));
    }
}

/// Append the numeral of `n`, zero-padded to at least three digits, to `s`.
pub fn push_pad3(s: &mut String, n: u64)
    ensures
        final(s)@ == old(s)@ + pad3(n as int),
{
    if n < 10 {
        s.push('0');
        s.push('0');
    } else if n < 100 {
        s.push('0');
    }
    push_decimal(s, n);
    proof {
        assert(s@ =~= old(s)@ + pad3(n as int));
    }
}

impl FormatDuration {
    /// The duration as `mm:ss.mmm` text.
    pub fn to_text(&self) -> (r: String)
        ensures
            r@ == mmssmmm_spec(self.0 as int),
    {
        let ms = self.0;
        let mut s = String::new();
        push_pad2(&mut s, ms / 60000);
        s.append(":");
        push_pad2(&mut s, (ms / 1000) % 60);
        s.append(".");
        push_pad3(&mut s, ms % 1000);
        proof {
            assert(s@ =~= mmssmmm_spec(self.0 as int));
        }
        s
    }
}

/// Percent of the word list consumed once the word under `index` shows, of
/// `total` words, rounded to the nearest whole percent.
pub open spec fn percent_spec(index: int, total: int) -> int
    recommends
        total >= 1,
{
    (200 * (index + 1) + total) / (2 * total)
}

/// Milliseconds of reading left at `wpm`: the words from `index` on take
/// 60/wpm seconds each. Clamped to what a 64-bit count holds.
pub open spec fn remaining_ms_spec(index: int, total: int, wpm: int) -> int
    recommends
        0 <= index <= total,
        wpm >= 1,
{
    let v = (total - index) * 60000 / wpm;
    if v > u64::MAX {
        u64::MAX as int
    } else {
        v
    }
}

/// The one-line playback status: play state, position, pace, progress and
/// time remaining.
pub open spec fn status_text_spec(paused: bool, index: int, total: int, wpm: int) -> Seq<char> {
    (if paused {
        "PAUSED"@
    } else {
        "PLAYING"@
    }) + " | Word "@ + dec_rep(index + 1) + "/"@ + dec_rep(total) + " | WPM: "@ + dec_rep(wpm)
        + " | Percent: "@ + dec_rep(percent_spec(index, total)) + "% | Remaining: "@ + mmssmmm_spec(
        remaining_ms_spec(index, total, wpm),
    )
}

/// Build the status line shown above the control legend. The index must
/// point at a word: the finished sentinel is never rendered.
pub fn status_line(paused: bool, index: usize, total: usize, wpm: u32) -> (r: String)
    requires
        total >= 1,
        index < total,
        wpm >= 1,
    ensures
        r@ == status_text_spec(paused, index as int, total as int, wpm as int),
{
    let mut s = String::new();
    if paused {
        s.append("PAUSED");
    } else {
        s.append("PLAYING");
    }
    s.append(" | Word ");
    push_decimal(&mut s, index as u64 + 1);
    s.append("/");
    push_decimal(&mut s, total as u64);
    s.append(" | WPM: ");
    push_decimal(&mut s, wpm as u64);
    s.append(" | Percent: ");
    let pct128: u128 = (200u128 * (index as u128 + 1) + total as u128) / (2u128 * total as u128);
    proof {
        let ii = index as int;
        let tt = total as int;
        assert((200 * (ii + 1) + tt) / (2 * tt) <= 100) by (nonlinear_arith)
            requires
                tt >= 1,
                0 <= ii < tt,
        ;
        assert(pct128 == percent_spec(index as int, total as int));
    }
    push_decimal(&mut s, pct128 as u64);
    s.append("% | Remaining: ");
    let rem128: u128 = (total as u128 - index as u128) * 60000u128 / (wpm as u128);
    let rem: u64 = if rem128 > u64::MAX as u128 {
        u64::MAX
    } else {
        rem128 as u64
    };
    proof {
        assert(rem == remaining_ms_spec(index as int, total as int, wpm as int));
    }
    let tail = FormatDuration(rem).to_text();
    s.append(tail.as_str());
    proof {
        assert(s@ =~= status_text_spec(paused, index as int, total as int, wpm as int));
    }
    s
}

} // verus!
