//! The command registry and the recording gate.
//!
//! The graphical front end invokes the backend through a fixed table of
//! named operations, registered once at bootstrap and immutable for the
//! process lifetime. An invocation is dispatched by looking its name up in
//! the table; an unknown name is not dispatched. The audio-recording
//! session is a process-wide exclusive resource: a second `start-record`
//! while one is active fails explicitly instead of queueing or overriding.

use vstd::prelude::*;
use crate::strutil::str_eq;

verus! {

/// The operations the front end may invoke.
#[derive(PartialEq, Eq, Structural, Clone, Copy, Debug)]
pub enum CommandName {
    Transcribe,
    DownloadModel,
    GetDefaultModelPath,
    GetCommitHash,
    IsOnline,
    GetPathDst,
    OpenPath,
    GetX86Features,
    GetSavePath,
    GetAudioDevices,
    StartRecord,
}

/// The fixed table: which operation a remote invocation name denotes.
pub open spec fn command_of_name(s: Seq<char>) -> Option<CommandName> {
    if s == "transcribe"@ {
        Some(CommandName::Transcribe)
    } else if s == "download-model"@ {
        Some(CommandName::DownloadModel)
    } else if s == "get-default-model-path"@ {
        Some(CommandName::GetDefaultModelPath)
    } else if s == "get-commit-hash"@ {
        Some(CommandName::GetCommitHash)
    } else if s == "is-online"@ {
        Some(CommandName::IsOnline)
    } else if s == "get-path-dst"@ {
        Some(CommandName::GetPathDst)
    } else if s == "open-path"@ {
        Some(CommandName::OpenPath)
    } else if s == "get-x86-features"@ {
        Some(CommandName::GetX86Features)
    } else if s == "get-save-path"@ {
        Some(CommandName::GetSavePath)
    } else if s == "get-audio-devices"@ {
        Some(CommandName::GetAudioDevices)
    } else if s == "start-record"@ {
        Some(CommandName::StartRecord)
    } else {
        None
    }
}

/// Looks an invocation name up in the fixed table.
pub fn lookup_command(name: &str) -> (r: Option<CommandName>)
    ensures
        r == command_of_name(name@),
{
    if str_eq(name, "transcribe") {
        Some(CommandName::Transcribe)
    } else if str_eq(name, "download-model") {
        Some(CommandName::DownloadModel)
    } else if str_eq(name, "get-default-model-path") {
        Some(CommandName::GetDefaultModelPath)
    } else if str_eq(name, "get-commit-hash") {
        Some(CommandName::GetCommitHash)
    } else if str_eq(name, "is-online") {
        Some(CommandName::IsOnline)
    } else if str_eq(name, "get-path-dst") {
        Some(CommandName::GetPathDst)
    } else if str_eq(name, "open-path") {
        Some(CommandName::OpenPath)
    } else if str_eq(name, "get-x86-features") {
        Some(CommandName::GetX86Features)
    } else if str_eq(name, "get-save-path") {
        Some(CommandName::GetSavePath)
    } else if str_eq(name, "get-audio-devices") {
        Some(CommandName::GetAudioDevices)
    } else if str_eq(name, "start-record") {
        Some(CommandName::StartRecord)
    } else {
        None
    }
}

/// The names of the registered operations, in registration order.
pub open spec fn registry_names_rep() -> Seq<Seq<char>> {
    seq![
        "transcribe"@,
        "download-model"@,
        "get-default-model-path"@,
        "get-commit-hash"@,
        "is-online"@,
        "get-path-dst"@,
        "open-path"@,
        "get-x86-features"@,
        "get-save-path"@,
        "get-audio-devices"@,
        "start-record"@,
    ]
}

/// Builds the registration-order list of operation names, the table fixed
/// at bootstrap. Every listed name is dispatchable.
pub fn registry_names() -> (r: Vec<String>)
    ensures
        r@.map_values(|s: String| s@) == registry_names_rep(),
        forall|i: int| 0 <= i < r@.len() ==> command_of_name(r@[i]@) is Some,
{
    let mut v: Vec<String> = Vec::new();
    v.push(String::from_str("transcribe"));
    v.push(String::from_str("download-model"));
    v.push(String::from_str("get-default-model-path"));
    v.push(String::from_str("get-commit-hash"));
    v.push(String::from_str("is-online"));
    v.push(String::from_str("get-path-dst"));
    v.push(String::from_str("open-path"));
    v.push(String::from_str("get-x86-features"));
    v.push(String::from_str("get-save-path"));
    v.push(String::from_str("get-audio-devices"));
    v.push(String::from_str("start-record"));
    proof {
        assert(v@.map_values(|s: String| s@) =~= registry_names_rep());
        assert(forall|i: int| 0 <= i < v@.len() ==> command_of_name(v@[i]@) is Some) by {
            assert(forall|i: int|
                0 <= i < v@.len() ==> v@[i]@ == registry_names_rep()[i]);
        }
    }
    v
}

/// Why a recording command failed.
#[derive(PartialEq, Eq, Structural, Clone, Copy, Debug)]
pub enum RecordError {
    /// A recording session is already active; a second one may not start.
    AlreadyRecording,
}

/// The process-wide recording session: at most one may be active.
pub struct RecordingGate {
    pub active: bool,
}

impl RecordingGate {
    /// At bootstrap no session is active.
    pub fn new() -> (r: RecordingGate)
        ensures
            !r.active,
    {
        RecordingGate { active: false }
    }

    /// Starts a recording session. While one is active the call fails
    /// explicitly and changes nothing; otherwise the session becomes
    /// active.
    pub fn start_record(&mut self) -> (r: Result<(), RecordError>)
        ensures
            old(self).active ==> r == Err::<(), RecordError>(RecordError::AlreadyRecording)
                && final(self).active,
            !old(self).active ==> r == Ok::<(), RecordError>(()) && final(self).active,
            r is Ok <==> !old(self).active,
    {
        if self.active {
            Err(RecordError::AlreadyRecording)
        } else {
            self.active = true;
            Ok(())
        }
    }

    /// Ends the active recording session, after which a new one may start.
    pub fn finish_record(&mut self)
        ensures
            !final(self).active,
    {
        self.active = false;
    }
}

} // verus!
