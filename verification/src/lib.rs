//! Removes the German a-umlaut and o-umlaut letters from file names,
//! directory names and a fixed set of audio metadata fields.
//!
//! The crate holds the decision logic only: the transliteration rule, the
//! rename planning, the tag-field rewriting and the traversal state machine.
//! A thin driver performs the filesystem and tag-codec calls that the
//! state machine asks for.

pub mod paths;
pub mod tags;
pub mod translit;
pub mod walker;
