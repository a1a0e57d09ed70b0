//! Droidium: a small desktop shell with a collapsible side panel and a
//! decoded watermark image.
//!
//! The library owns the shell's state, its layout rules and the watermark
//! model; a thin front end drives the windowing runtime around it.

pub mod layout;
pub mod shell;
pub mod watermark;
