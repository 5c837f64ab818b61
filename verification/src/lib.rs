//! A compression layer between developer command-line tools and a reader
//! with little room: it takes the raw output of a finished command and
//! returns a summary of bounded size that keeps failures, diagnostics and
//! structure, and drops boilerplate and repetition.
//!
//! Every summary is specified as a function on sequences of characters,
//! and every function that computes one is proved to return exactly that.
pub mod cli;
pub mod compress;
pub mod config;
pub mod listing;
pub mod runner;
pub mod text;
pub mod tools;
pub mod truncate;
