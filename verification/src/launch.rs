//! Launch-mode detection.
//!
//! A process instance runs either as a one-shot command-line tool or as a
//! long-lived graphical application. The detector inspects the raw process
//! argument list: any token that begins with the flag-prefix marker `--`
//! routes the process to command-line mode; otherwise it runs graphically.
//! The rule is intentionally permissive — any double-dash token, even a
//! malformed one, selects command-line mode — and is preserved here as a
//! known sharp edge.

use vstd::prelude::*;

verus! {

/// How a process instance runs: as a one-shot command-line tool, or as a
/// long-lived graphical application.
#[derive(PartialEq, Eq, Structural, Clone, Copy, Debug)]
pub enum LaunchMode {
    Cli,
    Graphical,
}

/// A token selects command-line mode when it starts with `--`.
pub open spec fn is_flag_token(s: Seq<char>) -> bool {
    s.len() >= 2 && s[0] == '-' && s[1] == '-'
}

/// An argument list selects command-line mode when some token in it
/// starts with `--`.
pub open spec fn has_flag_token(args: Seq<Seq<char>>) -> bool {
    exists|i: int| 0 <= i < args.len() && is_flag_token(args[i])
}

/// Whether one token starts with `--`.
pub fn token_is_flag(s: &String) -> (r: bool)
    ensures
        r == is_flag_token(s@),
{
    let n = s.as_str().unicode_len();
    if n < 2 {
        return false;
    }
    let c0 = s.as_str().get_char(0);
    let c1 = s.as_str().get_char(1);
    c0 == '-' && c1 == '-'
}

/// Returns true exactly when some argument starts with `--`, in which case
/// the process runs in command-line mode. An empty argument list, or one
/// holding only the process name, selects graphical mode.
pub fn is_cli_detected(args: &Vec<String>) -> (r: bool)
    ensures
        r == has_flag_token(args@.map_values(|s: String| s@)),
{
    let ghost view: Seq<Seq<char>> = args@.map_values(|s: String| s@);
    let mut i: usize = 0;
    while i < args.len()
        invariant
            0 <= i <= args.len(),
            view == args@.map_values(|s: String| s@),
            forall|j: int| 0 <= j < i ==> !is_flag_token(view[j]),
        decreases args.len() - i,
    {
        if token_is_flag(&args[i]) {
            assert(is_flag_token(view[i as int]));
            return true;
        }
        i += 1;
    }
    false
}

/// The launch-mode decision over a whole argument list.
pub fn detect_launch_mode(args: &Vec<String>) -> (m: LaunchMode)
    ensures
        m == LaunchMode::Cli <==> has_flag_token(args@.map_values(|s: String| s@)),
        m == LaunchMode::Cli || m == LaunchMode::Graphical,
{
    if is_cli_detected(args) {
        LaunchMode::Cli
    } else {
        LaunchMode::Graphical
    }
}

} // verus!
