use vibe_launch::commands::{
    lookup_command, registry_names, CommandName, RecordError, RecordingGate,
};
use vibe_launch::instance::{InstanceCoordinator, LaunchOutcome, LaunchPayload};

fn payload(args: &[&str], cwd: &str) -> LaunchPayload {
    LaunchPayload {
        args: args.iter().map(|s| s.to_string()).collect(),
        cwd: cwd.to_string(),
    }
}

#[test]
fn first_launch_becomes_owner_without_events() {
    let mut c = InstanceCoordinator::new();
    assert!(!c.owner_active);
    let o = c.launch(payload(&["vibe"], "/home/user"));
    assert_eq!(o, LaunchOutcome::BecameOwner);
    assert!(c.owner_active);
    assert!(c.take_event().is_none());
}

#[test]
fn second_launch_forwards_exactly_one_event() {
    let mut c = InstanceCoordinator::new();
    c.launch(payload(&["vibe"], "/home/user"));
    let o = c.launch(payload(&["vibe", "--model", "tiny.bin"], "/tmp/work"));
    assert_eq!(o, LaunchOutcome::ForwardedToOwner);
    // still exactly one UI session
    assert!(c.owner_active);
    // the owner receives the challenger's arguments and working directory
    let e = c.take_event().unwrap();
    assert_eq!(e.args, vec!["vibe".to_string(), "--model".to_string(), "tiny.bin".to_string()]);
    assert_eq!(e.cwd, "/tmp/work");
    // exactly one: nothing more is pending
    assert!(c.take_event().is_none());
}

#[test]
fn forwarded_events_keep_arrival_order() {
    let mut c = InstanceCoordinator::new();
    c.launch(payload(&["vibe"], "/home/user"));
    c.launch(payload(&["vibe", "--file", "a.wav"], "/a"));
    c.launch(payload(&["vibe", "--file", "b.wav"], "/b"));
    assert_eq!(c.take_event().unwrap().cwd, "/a");
    assert_eq!(c.take_event().unwrap().cwd, "/b");
    assert!(c.take_event().is_none());
}

#[test]
fn second_start_record_fails_explicitly() {
    let mut gate = RecordingGate::new();
    assert!(gate.start_record().is_ok());
    assert_eq!(gate.start_record().unwrap_err(), RecordError::AlreadyRecording);
    // the session stays active despite the failed attempt
    assert!(gate.active);
    gate.finish_record();
    assert!(gate.start_record().is_ok());
}

#[test]
fn registry_holds_the_fixed_command_surface() {
    let names = registry_names();
    let expected = [
        "transcribe",
        "download-model",
        "get-default-model-path",
        "get-commit-hash",
        "is-online",
        "get-path-dst",
        "open-path",
        "get-x86-features",
        "get-save-path",
        "get-audio-devices",
        "start-record",
    ];
    assert_eq!(names.len(), expected.len());
    for (name, want) in names.iter().zip(expected.iter()) {
        assert_eq!(name, want);
        assert!(lookup_command(name).is_some());
    }
}

#[test]
fn lookup_distinguishes_every_operation() {
    assert_eq!(lookup_command("transcribe"), Some(CommandName::Transcribe));
    assert_eq!(lookup_command("download-model"), Some(CommandName::DownloadModel));
    assert_eq!(
        lookup_command("get-default-model-path"),
        Some(CommandName::GetDefaultModelPath)
    );
    assert_eq!(lookup_command("get-commit-hash"), Some(CommandName::GetCommitHash));
    assert_eq!(lookup_command("is-online"), Some(CommandName::IsOnline));
    assert_eq!(lookup_command("get-path-dst"), Some(CommandName::GetPathDst));
    assert_eq!(lookup_command("open-path"), Some(CommandName::OpenPath));
    assert_eq!(lookup_command("get-x86-features"), Some(CommandName::GetX86Features));
    assert_eq!(lookup_command("get-save-path"), Some(CommandName::GetSavePath));
    assert_eq!(lookup_command("get-audio-devices"), Some(CommandName::GetAudioDevices));
    assert_eq!(lookup_command("start-record"), Some(CommandName::StartRecord));
}

#[test]
fn unknown_names_are_not_dispatched() {
    assert_eq!(lookup_command("shutdown"), None);
    assert_eq!(lookup_command(""), None);
    assert_eq!(lookup_command("Transcribe"), None);
}
