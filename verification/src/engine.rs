//! The playback engine: current word index, pace in words per minute, pause
//! and clutter flags, and the transitions between them.
//!
//! All transitions are total over the well-formed state space: none panics or
//! returns an error. An index equal to the word-list length is the terminal
//! "finished" sentinel; it is never rendered, and `finished` is the sole
//! authority on whether playback has ended.

use vstd::prelude::*;

verus! {

/// Lowest words-per-minute pace the engine accepts.
pub const MIN_WPM: u32 = 50;

/// Highest words-per-minute pace the engine accepts.
pub const MAX_WPM: u32 = 5000;

/// How the pivot character is chosen within a displayed word.
#[derive(Clone, Copy, PartialEq, Eq, Structural, Debug)]
pub enum PivotStrategy {
    /// The middle character: half the length, rounded down.
    Simple,
    /// A letter-weighted pivot that sits earlier in long words.
    Weighted,
}

/// The feature toggles that distinguish the reader's variants.
#[derive(Clone, Copy, PartialEq, Eq, Structural, Debug)]
pub struct EngineConfig {
    /// Which pivot the renderer highlights.
    pub pivot: PivotStrategy,
    /// Whether the interactive file picker can be opened.
    pub enable_file_picker: bool,
    /// Whether the reduced-clutter toggle is honoured.
    pub enable_clutter_toggle: bool,
}

/// The richest variant's toggles: simple pivot, picker and clutter toggle
/// enabled.
pub open spec fn default_config() -> EngineConfig {
    EngineConfig {
        pivot: PivotStrategy::Simple,
        enable_file_picker: true,
        enable_clutter_toggle: true,
    }
}

impl Default for EngineConfig {
    /// The richest variant: simple pivot, picker and clutter toggle enabled.
    fn default() -> (r: Self)
        ensures
            r == default_config(),
    {
        EngineConfig {
            pivot: PivotStrategy::Simple,
            enable_file_picker: true,
            enable_clutter_toggle: true,
        }
    }
}

/// State of one playback run over an immutable word list.
pub struct SpeedReader {
    /// The word list; replaced wholesale, never edited element by element.
    pub words: Vec<String>,
    /// Index of the word on display; `words.len()` means playback finished.
    pub current_word_index: usize,
    /// Pace, always within `[MIN_WPM, MAX_WPM]`.
    pub wpm: u32,
    /// Whether auto-advance is suspended.
    pub is_paused: bool,
    /// Whether the status and control overlay is suppressed.
    pub reduced_clutter: bool,
    /// The variant's feature toggles.
    pub config: EngineConfig,
}

/// `w` forced into the accepted pace band `[MIN_WPM, MAX_WPM]`.
pub open spec fn clamp_wpm(w: u32) -> u32 {
    if w < MIN_WPM {
        MIN_WPM
    } else if w > MAX_WPM {
        MAX_WPM
    } else {
        w
    }
}

/// Microseconds each word stays on display at pace `wpm`: 60/wpm seconds.
pub open spec fn interval_micros_spec(wpm: int) -> int
    recommends
        wpm >= 1,
{
    60_000_000int / wpm
}

/// The pace after asking for a change of `delta`: the sum where it stays
/// inside `[MIN_WPM, MAX_WPM]`, otherwise the old pace unchanged.
pub open spec fn retime_spec(w: u32, delta: i32) -> u32 {
    if MIN_WPM <= w + delta <= MAX_WPM {
        (w + delta) as u32
    } else {
        w
    }
}

impl SpeedReader {
    /// The engine's invariant: the index never passes the sentinel and the
    /// pace stays in band.
    pub open spec fn wf(self) -> bool {
        &&& self.current_word_index <= self.words.len()
        &&& MIN_WPM <= self.wpm <= MAX_WPM
    }

    /// Playback has consumed the whole list.
    pub open spec fn finished(self) -> bool {
        self.current_word_index >= self.words.len()
    }

    /// The state after one forward step: the index moves up by one until it
    /// reaches the sentinel, then stays.
    pub open spec fn advance_spec(self) -> Self {
        if self.current_word_index < self.words.len() {
            SpeedReader { current_word_index: (self.current_word_index + 1) as usize, ..self }
        } else {
            self
        }
    }

    /// The state after one backward step: the index moves down by one until
    /// it reaches zero, then stays.
    pub open spec fn rewind_spec(self) -> Self {
        if self.current_word_index > 0 {
            SpeedReader { current_word_index: (self.current_word_index - 1) as usize, ..self }
        } else {
            self
        }
    }

    /// A fresh engine over `words`, paused at the first word, with the asked
    /// pace forced into the accepted band.
    pub fn new(words: Vec<String>, wpm: u32) -> (r: Self)
        ensures
            r.words == words,
            r.current_word_index == 0,
            r.wpm == clamp_wpm(wpm),
            r.is_paused,
            !r.reduced_clutter,
            r.config == default_config(),
            r.wf(),
    {
        let bounded: u32 = if wpm < MIN_WPM {
            MIN_WPM
        } else if wpm > MAX_WPM {
            MAX_WPM
        } else {
            wpm
        };
        SpeedReader {
            words,
            current_word_index: 0,
            wpm: bounded,
            is_paused: true,
            reduced_clutter: false,
            config: EngineConfig::default(),
        }
    }

    /// Choose another set of feature toggles.
    pub fn set_config(&mut self, config: EngineConfig)
        ensures
            *final(self) == (SpeedReader { config, ..*old(self) }),
    {
        self.config = config;
    }

    /// The word under the index, or `None` once playback is finished.
    pub fn current_word(&self) -> (r: Option<&str>)
        ensures
            self.finished() <==> r is None,
            r is Some ==> r->0@ == self.words@[self.current_word_index as int]@,
    {
        if self.current_word_index < self.words.len() {
            Some(self.words[self.current_word_index].as_str())
        } else {
            None
        }
    }

    /// Step forward; reports whether the index moved. It moves whenever
    /// playback was not yet finished, and may land on the sentinel.
    pub fn next_word(&mut self) -> (moved: bool)
        ensures
            *final(self) == old(self).advance_spec(),
            moved == !old(self).finished(),
    {
        if self.current_word_index < self.words.len() {
            self.current_word_index = self.current_word_index + 1;
            true
        } else {
            false
        }
    }

    /// Step backward; reports whether the index moved. It moves whenever the
    /// index was positive.
    pub fn previous_word(&mut self) -> (moved: bool)
        ensures
            *final(self) == old(self).rewind_spec(),
            moved == (old(self).current_word_index > 0),
    {
        if self.current_word_index > 0 {
            self.current_word_index = self.current_word_index - 1;
            true
        } else {
            false
        }
    }

    /// Back to the first word, paused, whatever the prior state.
    pub fn restart(&mut self)
        ensures
            *final(self) == (SpeedReader {
                current_word_index: 0,
                is_paused: true,
                ..*old(self)
            }),
    {
        self.current_word_index = 0;
        self.is_paused = true;
    }

    /// Change the pace by `delta`; a change that would leave the accepted
    /// band is rejected and the pace stays as it was.
    pub fn adjust_wpm(&mut self, delta: i32)
        ensures
            *final(self) == (SpeedReader { wpm: retime_spec(old(self).wpm, delta), ..*old(self) }),
            old(self).wf() ==> final(self).wf(),
    {
        let new_wpm: i64 = self.wpm as i64 + delta as i64;
        if MIN_WPM as i64 <= new_wpm && new_wpm <= MAX_WPM as i64 {
            self.wpm = new_wpm as u32;
        }
    }

    /// Microseconds each word stays on display: 60/wpm seconds.
    pub fn get_display_interval(&self) -> (r: u64)
        requires
            self.wpm >= 1,
        ensures
            r == interval_micros_spec(self.wpm as int),
    {
        60_000_000u64 / (self.wpm as u64)
    }

    /// Resume auto-advance.
    pub fn start_reading(&mut self)
        ensures
            *final(self) == (SpeedReader { is_paused: false, ..*old(self) }),
    {
        self.is_paused = false;
    }

    /// Suspend auto-advance.
    pub fn pause_reading(&mut self)
        ensures
            *final(self) == (SpeedReader { is_paused: true, ..*old(self) }),
    {
        self.is_paused = true;
    }

    /// Flip the reduced-clutter flag that suppresses the overlay.
    pub fn toggle_clutter(&mut self)
        ensures
            *final(self) == (SpeedReader {
                reduced_clutter: !old(self).reduced_clutter,
                ..*old(self)
            }),
    {
        self.reduced_clutter = !self.reduced_clutter;
    }

    /// Playback has consumed the whole list.
    pub fn is_finished(&self) -> (r: bool)
        ensures
            r == self.finished(),
    {
        self.current_word_index >= self.words.len()
    }

    /// Replace the word list wholesale and restart from the first word.
    pub fn load_words(&mut self, words: Vec<String>)
        ensures
            *final(self) == (SpeedReader {
                words,
                current_word_index: 0,
                is_paused: true,
                ..*old(self)
            }),
            old(self).wf() ==> final(self).wf(),
    {
        self.words = words;
        self.restart();
    }
}

/// Stepping forward and then backward from any unfinished state returns to
/// that state; at the boundaries each direction alone is a no-op.
pub proof fn lemma_advance_rewind_inverse(s: SpeedReader)
    ensures
        !s.finished() ==> s.advance_spec().rewind_spec() == s,
        s.finished() ==> s.advance_spec() == s,
        s.current_word_index == 0 ==> s.rewind_spec() == s,
{
}

/// The display interval is 60/wpm seconds, strictly falling as the pace
/// rises: over the whole accepted band, a higher pace means a strictly
/// shorter interval.
pub proof fn lemma_interval_monotonic(w1: u32, w2: u32)
    requires
        MIN_WPM <= w1 < w2 <= MAX_WPM,
    ensures
        interval_micros_spec(w1 as int) > interval_micros_spec(w2 as int),
{
    let n = 60_000_000int;
    let a = w1 as int;
    let b = w2 as int;
    let q = n / b;
    vstd::arithmetic::div_mod::lemma_div_is_ordered_by_denominator(n, b, 5000);
    assert(q >= n / 5000 == 12000);
    vstd::arithmetic::div_mod::lemma_fundamental_div_mod(n, b);
    assert(n == b * q + n % b);
    vstd::arithmetic::div_mod::lemma_mod_bound(n, b);
    assert((q + 1) * a <= n) by (nonlinear_arith)
        requires
            n == b * q + n % b,
            n % b >= 0,
            50 <= a,
            a < b,
            b <= 5000,
            q >= 12000,
    ;
    vstd::arithmetic::div_mod::lemma_div_is_ordered((q + 1) * a, n, a);
    vstd::arithmetic::div_mod::lemma_div_by_multiple(q + 1, a);
    assert(n / a >= q + 1);
}

/// A rejected pace change is a no-op, and any accepted one keeps the pace in
/// band: `retime_spec` never leaves `[MIN_WPM, MAX_WPM]`.
pub proof fn lemma_retime_bounds(w: u32, delta: i32)
    requires
        MIN_WPM <= w <= MAX_WPM,
    ensures
        MIN_WPM <= retime_spec(w, delta) <= MAX_WPM,
        !(MIN_WPM <= w + delta <= MAX_WPM) ==> retime_spec(w, delta) == w,
{
}

} // verus!
