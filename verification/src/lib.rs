//! A catalogue of text transforms behind one dispatcher.
//!
//! The library holds the catalogue, resolves a request against it, and turns
//! each transform's outcome into report lines. It performs no input or output
//! itself: every entry point returns the lines to print and, where a line of
//! input is wanted next, says what that line is for.

pub mod args;
pub mod codec;
pub mod escape;
pub mod laws;
pub mod output;
pub mod select;
pub mod text;
pub mod tools;
