//! A terminal speed-reading library: rapid serial visual presentation of one
//! word at a time.
//!
//! The crate holds the verified core of such a reader: the playback engine
//! (word index, pace, pause state and their transitions), the tokenizer that
//! turns raw text into a word list, the pivot-centered layout arithmetic for
//! the renderer, the key-event dispatcher, and the interactive file-picker
//! state. Terminal drawing, key polling and file access live outside the
//! library and exchange plain values with it.

pub mod display;
pub mod engine;
pub mod files;
pub mod layout;
pub mod picker;
pub mod text;
pub mod dispatch;
pub mod words;
