//! Transcription requests and default filling.
//!
//! A request carries the parameters of one engine invocation. The raw flag
//! values arrive as an [`Args`] record, in which every optional flag is
//! still absent or present; [`build_request`] fills the documented defaults
//! and yields the immutable request handed to the invoker. The sampling
//! temperature travels as validated float literal text, since the engine
//! boundary is where it becomes a machine float.

use vstd::prelude::*;
use crate::paths::{prepare_model_path, ExistingPaths};

verus! {

/// The raw flag values of one command-line invocation: the two required
/// paths, and each optional flag as it was or was not supplied.
#[derive(Debug)]
pub struct Args {
    /// Value of `--model`: a model reference, possibly relative.
    pub model: String,
    /// Value of `--file`: the audio file to transcribe.
    pub file: String,
    /// Value of `--language`, when supplied.
    pub language: Option<String>,
    /// Value of `--temperature`, when supplied: validated float text.
    pub temperature: Option<String>,
    /// Value of `--n-threads`, when supplied.
    pub n_threads: Option<i32>,
    /// Value of `--translate`, when supplied.
    pub translate: Option<bool>,
    /// Value of `--init-prompt`, when supplied.
    pub init_prompt: Option<String>,
}

/// One fully defaulted transcription request, immutable once built and
/// consumed by a single engine invocation.
#[derive(Debug)]
pub struct TranscriptionRequest {
    /// Path of the audio file to transcribe.
    pub audio_path: String,
    /// Path of the model file, replaced in place by resolution.
    pub model_path: String,
    /// Language to transcribe; `"en"` when the flag was omitted.
    pub language: String,
    /// Sampling temperature as float text; `"0.4"` when omitted.
    pub temperature: String,
    /// Number of engine threads; `4` when omitted.
    pub n_threads: i32,
    /// Whether to translate; `false` when omitted.
    pub translate: bool,
    /// Initial prompt handed to the engine, when supplied.
    pub init_prompt: Option<String>,
    /// Verbose engine output; never requested from the command line.
    pub verbose: bool,
}

/// Builds the request from raw flag values, filling the defaults: language
/// `"en"`, temperature `"0.4"`, four threads, no translation. The builder
/// is total: it never rejects an input.
pub fn build_request(args: Args) -> (r: TranscriptionRequest)
    ensures
        r.audio_path@ == args.file@,
        r.model_path@ == args.model@,
        args.language is Some ==> r.language@ == args.language->0@,
        args.language is None ==> r.language@ == "en"@,
        args.temperature is Some ==> r.temperature@ == args.temperature->0@,
        args.temperature is None ==> r.temperature@ == "0.4"@,
        args.n_threads is Some ==> r.n_threads == args.n_threads->0,
        args.n_threads is None ==> r.n_threads == 4,
        args.translate is Some ==> r.translate == args.translate->0,
        args.translate is None ==> r.translate == false,
        r.init_prompt == args.init_prompt,
        r.verbose == false,
{
    let language = match args.language {
        Some(l) => l,
        None => String::from_str("en"),
    };
    let temperature = match args.temperature {
        Some(t) => t,
        None => String::from_str("0.4"),
    };
    let n_threads = match args.n_threads {
        Some(n) => n,
        None => 4,
    };
    let translate = match args.translate {
        Some(b) => b,
        None => false,
    };
    TranscriptionRequest {
        audio_path: args.file,
        model_path: args.model,
        language,
        temperature,
        n_threads,
        translate,
        init_prompt: args.init_prompt,
        verbose: false,
    }
}

impl TranscriptionRequest {
    /// Replaces the model path in place with its resolved form, leaving
    /// every other field unchanged.
    pub fn resolve_model(
        &mut self,
        cwd: &String,
        models_folder: &String,
        existing: &ExistingPaths,
    )
        ensures
            final(self).model_path@ == crate::paths::resolved_path(
                old(self).model_path@,
                cwd@,
                models_folder@,
                *existing,
            ),
            final(self).audio_path == old(self).audio_path,
            final(self).language == old(self).language,
            final(self).temperature == old(self).temperature,
            final(self).n_threads == old(self).n_threads,
            final(self).translate == old(self).translate,
            final(self).init_prompt == old(self).init_prompt,
            final(self).verbose == old(self).verbose,
    {
        self.model_path = prepare_model_path(&self.model_path, cwd, models_folder, existing);
    }

    /// The invoker's gate: a request may reach the engine only when both
    /// paths are non-empty and the resolved model path is known to exist.
    pub fn ready_for_invocation(&self, existing: &ExistingPaths) -> (r: bool)
        ensures
            r == (self.audio_path@.len() > 0 && self.model_path@.len() > 0
                && existing.spec_contains(self.model_path@)),
    {
        !self.audio_path.as_str().is_empty() && !self.model_path.as_str().is_empty()
            && existing.contains(&self.model_path)
    }
}

} // verus!
