//! Forensic records of running processes, and the corrective actions taken on them.
//!
//! The library decides and computes; the program around it reads the
//! pseudo-filesystem, runs the platform tools and hands their results in.
//!
//! - `text`: line-oriented "label: value" tool output, split and parsed.
//! - `record`: the record of one process and the three ways of locating it.
//! - `actions`: the commands that are run, and the outcomes of termination
//!   and quarantine.
//! - `tools`: hashing of configuration bytes and yes/no replies.
pub mod actions;
pub mod record;
pub mod text;
pub mod tools;
