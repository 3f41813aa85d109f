use vibe_launch::launch::{detect_launch_mode, is_cli_detected, LaunchMode};

fn strings(items: &[&str]) -> Vec<String> {
    items.iter().map(|s| s.to_string()).collect()
}

#[test]
fn flag_token_routes_to_cli() {
    let args = strings(&["vibe", "--model", "tiny.bin"]);
    assert!(is_cli_detected(&args));
    assert_eq!(detect_launch_mode(&args), LaunchMode::Cli);
}

#[test]
fn no_flag_token_routes_to_graphical() {
    let args = strings(&["vibe", "open", "something.wav"]);
    assert!(!is_cli_detected(&args));
    assert_eq!(detect_launch_mode(&args), LaunchMode::Graphical);
}

#[test]
fn empty_argument_list_is_graphical() {
    let args: Vec<String> = Vec::new();
    assert!(!is_cli_detected(&args));
    assert_eq!(detect_launch_mode(&args), LaunchMode::Graphical);
}

#[test]
fn process_name_alone_is_graphical() {
    let args = strings(&["vibe"]);
    assert!(!is_cli_detected(&args));
}

#[test]
fn malformed_double_dash_still_routes_to_cli() {
    // the permissive rule: any double-dash token selects command-line mode
    let args = strings(&["vibe", "--"]);
    assert!(is_cli_detected(&args));
    let args = strings(&["vibe", "--not-a-known-flag"]);
    assert!(is_cli_detected(&args));
}

#[test]
fn single_dash_is_not_a_flag_marker() {
    let args = strings(&["vibe", "-m", "tiny.bin"]);
    assert!(!is_cli_detected(&args));
}
