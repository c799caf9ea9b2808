//! Flattening of a directory tree into one framed text stream.
//!
//! - `ignore`: the text of a rules file as an ordered list of patterns.
//! - `pattern`: glob matching of a root-relative path against that list.
//! - `path`, `entry`: what a walk reports, and which entries are written out.
//! - `framing`: the opening block, the record of one file, the closing line.
//! - `pipeline`: the decisions of a run, as a state machine that the caller
//!   drives by doing the outside work.
//! - `run`: whole runs, and what holds of the text they produce.
//! - `cli`: the command line.

pub mod cli;
pub mod entry;
pub mod framing;
pub mod ignore;
pub mod path;
pub mod pattern;
pub mod pipeline;
pub mod run;
pub mod text;
