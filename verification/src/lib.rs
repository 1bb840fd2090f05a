//! A verified line-editor core: a text buffer made of lines of characters,
//! a cursor constrained to valid positions, and the editing commands of a
//! minimal terminal editor (character insert and delete, line split and
//! join, and the four directional moves with wrap and clamp semantics).
//!
//! Terminal and file handling live outside this crate; the core consumes
//! already-decoded commands and exposes the line sequence and cursor
//! position for rendering and saving.

pub mod editor;
pub mod laws;
pub mod model;
