//! Classification of clipboard-sourced content.
//!
//! The heart of the crate is an ordered, rule-based text classifier: a
//! library of boolean detectors (one per content category), a pipeline that
//! runs them in a fixed priority order and returns the first match, and a
//! registry mapping each category to a canonical file extension and display
//! name.  Around it sit a small argument parser and the helpers a
//! clipboard-to-file tool needs.

pub mod args;
pub mod config;
pub mod content;
pub mod detect;
pub mod detectors;
pub mod textscan;
