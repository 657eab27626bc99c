//! Black-box extraction of the command-line surface of a binary.
//!
//! The library parses help text into option records, checks the probe plan
//! of a planner, reads the captured output of each probe for diagnostics
//! that name the option under test, and infers from them whether the option
//! exists and how it binds a value. Running the probes is left to the
//! caller: the library says which probe is due and takes its outcome.
//!
//! Beside the surface extractor stand the rules of scenario replay:
//! fixture manifests and trees, run names, and the prompt that asks for a
//! scenario.

pub mod attribution;
pub mod binary;
pub mod binding;
pub mod contract;
pub mod digest;
pub mod evidence;
pub mod fixture;
pub mod help;
pub mod help_render;
pub mod limits;
pub mod markers;
pub mod paths;
pub mod pattern;
pub mod planner;
pub mod probe;
pub mod prompt;
pub mod render;
pub mod report;
pub mod runner;
pub mod schema;
pub mod signals;
pub mod surface;
pub mod text;
pub mod transcript;
pub mod validate;
