//! The input dispatcher's decision core: it maps a key or resize event to the
//! engine transition it causes and tells the surrounding loop what to do
//! next — re-render, reset the advance timer, recompute the cached display
//! interval, open the picker, or quit. The loop itself (polling the terminal,
//! drawing, timing) lives outside the library and only performs what these
//! decisions say.

use vstd::prelude::*;

use crate::engine::{interval_micros_spec, retime_spec, SpeedReader};

verus! {

/// A keyboard event, already mapped from the terminal's key codes.
#[derive(Clone, Copy, PartialEq, Eq, Structural, Debug)]
pub enum KeyMsg {
    /// `q` or escape.
    Quit,
    /// Space.
    PlayPause,
    /// `r`.
    Restart,
    /// Right, down or `l`.
    NextWord,
    /// Left, up or `h`.
    PrevWord,
    /// `+` or `=`.
    SpeedUp,
    /// `-`.
    SpeedDown,
    /// `o`.
    OpenPicker,
    /// `z`.
    ToggleClutter,
    /// Any other key: ignored.
    Other,
}

/// One event the loop can observe.
#[derive(Clone, Copy, PartialEq, Eq, Structural, Debug)]
pub enum EventMsg {
    /// A key was pressed.
    Key(KeyMsg),
    /// The terminal was resized.
    Resize,
}

/// What the loop must do after one dispatched event.
#[derive(Clone, Copy, PartialEq, Eq, Structural, Debug)]
pub struct StepOutcome {
    /// Redraw the screen.
    pub render: bool,
    /// Restart the auto-advance timer from now.
    pub reset_timer: bool,
    /// The pace changed: recompute the cached display interval.
    pub interval_changed: bool,
    /// Leave the loop.
    pub quit: bool,
    /// Open the file picker before the next iteration.
    pub open_picker: bool,
}

/// The outcome with the given flags.
pub open spec fn outcome_spec(
    render: bool,
    reset_timer: bool,
    interval_changed: bool,
    quit: bool,
    open_picker: bool,
) -> StepOutcome {
    StepOutcome { render, reset_timer, interval_changed, quit, open_picker }
}

/// The outcome that asks for nothing.
pub open spec fn no_op_outcome() -> StepOutcome {
    outcome_spec(false, false, false, false, false)
}

impl StepOutcome {
    fn none() -> (r: Self)
        ensures
            r == no_op_outcome(),
    {
        StepOutcome {
            render: false,
            reset_timer: false,
            interval_changed: false,
            quit: false,
            open_picker: false,
        }
    }
}

impl SpeedReader {
    /// Whether the auto-advance is due: playback is running and at least one
    /// display interval has elapsed since the timer was last reset.
    pub fn advance_due(&self, elapsed_micros: u64) -> (r: bool)
        requires
            self.wpm >= 1,
        ensures
            r == (!self.is_paused && elapsed_micros >= interval_micros_spec(self.wpm as int)),
    {
        !self.is_paused && elapsed_micros >= self.get_display_interval()
    }

    /// Apply one observed event to the engine and say what the loop must do
    /// next. Every event is handled without error; unknown keys do nothing.
    pub fn handle_event(&mut self, ev: EventMsg) -> (o: StepOutcome)
        ensures
            old(self).wf() ==> final(self).wf(),
            ev == EventMsg::Resize ==> *final(self) == *old(self) && o == outcome_spec(
                true,
                false,
                false,
                false,
                false,
            ),
            ev == EventMsg::Key(KeyMsg::Quit) ==> *final(self) == *old(self) && o == outcome_spec(
                false,
                false,
                false,
                true,
                false,
            ),
            ev == EventMsg::Key(KeyMsg::PlayPause) ==> *final(self) == (SpeedReader {
                is_paused: !old(self).is_paused,
                ..*old(self)
            }) && o == outcome_spec(true, true, false, false, false),
            ev == EventMsg::Key(KeyMsg::Restart) ==> *final(self) == (SpeedReader {
                current_word_index: 0,
                is_paused: true,
                ..*old(self)
            }) && o == outcome_spec(true, false, false, false, false),
            ev == EventMsg::Key(KeyMsg::NextWord) ==> *final(self) == old(self).advance_spec() && o
                == (if old(self).advance_spec().finished() {
                outcome_spec(false, false, false, true, false)
            } else {
                outcome_spec(true, true, false, false, false)
            }),
            ev == EventMsg::Key(KeyMsg::PrevWord) ==> *final(self) == old(self).rewind_spec() && o
                == (if old(self).current_word_index > 0 {
                outcome_spec(true, true, false, false, false)
            } else {
                no_op_outcome()
            }),
            ev == EventMsg::Key(KeyMsg::SpeedUp) ==> *final(self) == (SpeedReader {
                wpm: retime_spec(old(self).wpm, 50),
                ..*old(self)
            }) && o == outcome_spec(true, false, true, false, false),
            ev == EventMsg::Key(KeyMsg::SpeedDown) ==> *final(self) == (SpeedReader {
                wpm: retime_spec(old(self).wpm, -50i32),
                ..*old(self)
            }) && o == outcome_spec(true, false, true, false, false),
            ev == EventMsg::Key(KeyMsg::OpenPicker) ==> *final(self) == *old(self) && o == (if old(
                self,
            ).config.enable_file_picker {
                outcome_spec(true, false, false, false, true)
            } else {
                no_op_outcome()
            }),
            ev == EventMsg::Key(KeyMsg::ToggleClutter) ==> (if old(
                self,
            ).config.enable_clutter_toggle {
                *final(self) == (SpeedReader {
                    reduced_clutter: !old(self).reduced_clutter,
                    ..*old(self)
                }) && o == outcome_spec(true, false, false, false, false)
            } else {
                *final(self) == *old(self) && o == no_op_outcome()
            }),
            ev == EventMsg::Key(KeyMsg::Other) ==> *final(self) == *old(self) && o
                == no_op_outcome(),
    {
        match ev {
            EventMsg::Resize => {
                StepOutcome { render: true, ..StepOutcome::none() }
            },
            EventMsg::Key(KeyMsg::Quit) => {
                StepOutcome { quit: true, ..StepOutcome::none() }
            },
            EventMsg::Key(KeyMsg::PlayPause) => {
                if self.is_paused {
                    self.start_reading();
                } else {
                    self.pause_reading();
                }
                StepOutcome { render: true, reset_timer: true, ..StepOutcome::none() }
            },
            EventMsg::Key(KeyMsg::Restart) => {
                self.restart();
                StepOutcome { render: true, ..StepOutcome::none() }
            },
            EventMsg::Key(KeyMsg::NextWord) => {
                self.next_word();
                if self.is_finished() {
                    StepOutcome { quit: true, ..StepOutcome::none() }
                } else {
                    StepOutcome { render: true, reset_timer: true, ..StepOutcome::none() }
                }
            },
            EventMsg::Key(KeyMsg::PrevWord) => {
                let moved = self.previous_word();
                if moved {
                    StepOutcome { render: true, reset_timer: true, ..StepOutcome::none() }
                } else {
                    StepOutcome::none()
                }
            },
            EventMsg::Key(KeyMsg::SpeedUp) => {
                self.adjust_wpm(50);
                StepOutcome { render: true, interval_changed: true, ..StepOutcome::none() }
            },
            EventMsg::Key(KeyMsg::SpeedDown) => {
                self.adjust_wpm(-50);
                StepOutcome { render: true, interval_changed: true, ..StepOutcome::none() }
            },
            EventMsg::Key(KeyMsg::OpenPicker) => {
                if self.config.enable_file_picker {
                    StepOutcome { render: true, open_picker: true, ..StepOutcome::none() }
                } else {
                    StepOutcome::none()
                }
            },
            EventMsg::Key(KeyMsg::ToggleClutter) => {
                if self.config.enable_clutter_toggle {
                    self.toggle_clutter();
                    StepOutcome { render: true, ..StepOutcome::none() }
                } else {
                    StepOutcome::none()
                }
            },
            EventMsg::Key(KeyMsg::Other) => {
                StepOutcome::none()
            },
        }
    }
}

} // verus!

