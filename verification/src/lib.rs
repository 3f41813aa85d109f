//! Launch and dispatch layer of a desktop speech-to-text application.
//!
//! The crate decides whether a process was started as a one-shot
//! command-line transcription tool or as a graphical application, parses
//! and validates the command-line request, resolves a model reference to a
//! concrete path through a fixed search order, formats transcripts as
//! subtitle text, and models the process-wide coordination rules: the
//! single-instance guarantee and the exclusive recording session.

use vstd::prelude::*;

pub mod cli;
pub mod commands;
pub mod instance;
pub mod launch;
pub mod parser;
pub mod paths;
pub mod request;
pub mod srt;
pub mod strutil;

verus! {

} // verus!
