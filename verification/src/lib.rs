//! Rendering core of a prediction-market command-line client.
//!
//! The upstream API returns sparse records — markets, events, profiles —
//! whose every field beyond the identifier may be absent. This crate turns
//! such records into a condensed summary table, an exhaustive detail view,
//! or their raw JSON form, with verified contracts for the formatting rules:
//! placeholders for absent values, character-safe truncation, fixed label
//! sets, the status derivation, and JSON that preserves field presence.
//! Network work stays outside; the crate only ever sees fetched values.

pub mod cells;
pub mod commands;
pub mod format;
pub mod json;
pub mod output;
pub mod records;
pub mod table;
pub mod text;
