//! Phonetic transliteration of Latin keystrokes into Bengali script.
//!
//! The engine is a pattern table ([`keymap::KeyMap`]), a longest-match
//! tokenizer with context-sensitive vowel signs ([`convert`]), and an
//! incremental reconciler that keeps the visible text equal to the
//! conversion of the word being typed ([`reconcile`]).
pub mod convert;
pub mod keyboard;
pub mod keymap;
pub mod reconcile;
