//! The command-line path: parse, build, resolve, and settle the outcome.
//!
//! A command-line invocation is one straight line: the flags are parsed,
//! the request is built with its defaults, the model reference is resolved
//! in place, the engine is invoked once, and the process prints the
//! subtitle text and exits. Everything here is the deciding half of that
//! line; the caller performs the two outside steps — probing the disk for
//! the resolver's candidates and invoking the engine — and hands their
//! findings in as plain values.

use vstd::prelude::*;
use crate::parser::{parse_cli_args, parse_spec, ParseError};
use crate::paths::{resolved_path, ExistingPaths};
use crate::request::{build_request, TranscriptionRequest};
use crate::srt::{srt_rep, Transcript};

verus! {

/// Turns an argument list into the fully defaulted request with its model
/// path resolved, or reports exactly why the arguments are rejected; the
/// caller then reports a parse error with a usage message and a non-zero
/// exit.
pub fn plan_cli_request(
    args: &Vec<String>,
    cwd: &String,
    models_folder: &String,
    existing: &ExistingPaths,
) -> (r: Result<TranscriptionRequest, ParseError>)
    ensures
        match r {
            Ok(req) => parse_spec(args@.map_values(|s: String| s@)) matches Ok(av) && {
                &&& req.audio_path@ == av.file->0
                &&& req.model_path@ == resolved_path(
                    av.model->0,
                    cwd@,
                    models_folder@,
                    *existing,
                )
                &&& req.language@ == if av.language is Some { av.language->0 } else { "en"@ }
                &&& req.temperature@ == if av.temperature is Some {
                    av.temperature->0
                } else {
                    "0.4"@
                }
                &&& req.n_threads == if av.n_threads is Some { av.n_threads->0 } else { 4 as int }
                &&& req.translate == if av.translate is Some { av.translate->0 } else { false }
                &&& match av.init_prompt {
                    Some(p) => req.init_prompt matches Some(q) && q@ == p,
                    None => req.init_prompt is None,
                }
                &&& req.verbose == false
            },
            Err(e) => parse_spec(args@.map_values(|s: String| s@)) == Err::<
                crate::parser::ArgsView,
                ParseError,
            >(e),
        },
{
    let parsed = match parse_cli_args(args) {
        Ok(a) => a,
        Err(e) => {
            return Err(e);
        },
    };
    let mut request = build_request(parsed);
    request.resolve_model(cwd, models_folder, existing);
    Ok(request)
}

/// How a command-line invocation ends: the subtitle text to print before
/// exiting with status zero, or the engine's failure to report before
/// exiting with a non-zero status.
pub enum CliOutcome {
    Success(String),
    Failure(String),
}

impl CliOutcome {
    /// The process exit status the outcome calls for.
    pub fn exit_status(&self) -> (c: i32)
        ensures
            self is Success <==> c == 0,
            self is Failure ==> c == 1,
    {
        match self {
            CliOutcome::Success(_) => 0,
            CliOutcome::Failure(_) => 1,
        }
    }
}

/// Settles the engine's answer: a transcript becomes its subtitle text and
/// a success; an engine failure is surfaced as a failure carrying the
/// engine's report, never swallowed.
pub fn render_transcription_result(r: Result<Transcript, String>) -> (o: CliOutcome)
    ensures
        match r {
            Ok(t) => o matches CliOutcome::Success(s) && s@ == srt_rep(t@),
            Err(e) => o matches CliOutcome::Failure(m) && m@ == e@,
        },
{
    match r {
        Ok(t) => CliOutcome::Success(t.as_srt()),
        Err(e) => CliOutcome::Failure(e),
    }
}

} // verus!
