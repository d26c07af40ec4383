//! Regex search and replace over a set of files.
//!
//! The library holds the decisions of the tool: which inputs become candidate
//! files, whether a file is read at all, what a file's text turns into in
//! report or replace mode, and how per-file results add up to a total.
//! Reading, writing, walking directories and printing are left to the caller.
pub mod pattern;
pub mod text;
pub mod process;
pub mod resolve;
pub mod aggregate;
pub mod laws;
