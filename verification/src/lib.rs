//! Data model and JSON encoding for launcher script-filter result items.
//!
//! The library models result items (title, optional display fields, keyboard
//! modifier overrides, workflow variables), states in spec functions exactly
//! which JSON keys the encoding of a value contains, and proves that the
//! executable encoders meet that statement.

pub mod builder;
pub mod item;
pub mod json;
pub mod laws;
pub mod model;
pub mod wire;
