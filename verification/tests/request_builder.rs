use vibe_launch::parser::{parse_cli_args, ParseError};
use vibe_launch::request::{build_request, Args};

fn strings(items: &[&str]) -> Vec<String> {
    items.iter().map(|s| s.to_string()).collect()
}

fn bare_args() -> Args {
    Args {
        model: "tiny.bin".to_string(),
        file: "sample.wav".to_string(),
        language: None,
        temperature: None,
        n_threads: None,
        translate: None,
        init_prompt: None,
    }
}

#[test]
fn omitted_flags_get_their_defaults() {
    let r = build_request(bare_args());
    assert_eq!(r.language, "en");
    assert_eq!(r.temperature, "0.4");
    assert_eq!(r.temperature.parse::<f32>().unwrap(), 0.4f32);
    assert_eq!(r.n_threads, 4);
    assert!(!r.translate);
    assert_eq!(r.init_prompt, None::<String>);
    assert!(!r.verbose);
}

#[test]
fn supplied_flags_are_kept() {
    let mut a = bare_args();
    a.language = Some("fr".to_string());
    a.temperature = Some("0.9".to_string());
    a.n_threads = Some(8);
    a.translate = Some(true);
    a.init_prompt = Some("greetings".to_string());
    let r = build_request(a);
    assert_eq!(r.audio_path, "sample.wav");
    assert_eq!(r.model_path, "tiny.bin");
    assert_eq!(r.language, "fr");
    assert_eq!(r.temperature, "0.9");
    assert_eq!(r.n_threads, 8);
    assert!(r.translate);
    assert_eq!(r.init_prompt.as_deref(), Some("greetings"));
}

#[test]
fn full_flag_list_parses() {
    let args = strings(&[
        "vibe",
        "--model",
        "tiny.bin",
        "--file",
        "sample.wav",
        "--language",
        "de",
        "--temperature",
        "0.7",
        "--n-threads",
        "2",
        "--translate",
        "true",
        "--init-prompt",
        "hello there",
    ]);
    let a = parse_cli_args(&args).unwrap();
    assert_eq!(a.model, "tiny.bin");
    assert_eq!(a.file, "sample.wav");
    assert_eq!(a.language.as_deref(), Some("de"));
    assert_eq!(a.temperature.as_deref(), Some("0.7"));
    assert_eq!(a.n_threads, Some(2));
    assert_eq!(a.translate, Some(true));
    assert_eq!(a.init_prompt.as_deref(), Some("hello there"));
}

#[test]
fn missing_model_is_fatal() {
    let args = strings(&["vibe", "--file", "sample.wav"]);
    assert_eq!(parse_cli_args(&args).unwrap_err(), ParseError::MissingModel);
}

#[test]
fn missing_file_is_fatal() {
    let args = strings(&["vibe", "--model", "tiny.bin"]);
    assert_eq!(parse_cli_args(&args).unwrap_err(), ParseError::MissingFile);
}

#[test]
fn positional_token_is_rejected() {
    let args = strings(&["vibe", "sample.wav"]);
    assert_eq!(parse_cli_args(&args).unwrap_err(), ParseError::UnexpectedArgument);
}

#[test]
fn flag_without_value_is_rejected() {
    let args = strings(&["vibe", "--model", "tiny.bin", "--file"]);
    assert_eq!(parse_cli_args(&args).unwrap_err(), ParseError::MissingValue);
}

#[test]
fn unknown_flag_is_rejected() {
    let args = strings(&["vibe", "--model", "tiny.bin", "--loudness", "11"]);
    assert_eq!(parse_cli_args(&args).unwrap_err(), ParseError::UnknownFlag);
}

#[test]
fn repeated_flag_is_rejected() {
    let args = strings(&["vibe", "--model", "a.bin", "--model", "b.bin"]);
    assert_eq!(parse_cli_args(&args).unwrap_err(), ParseError::DuplicateFlag);
}

#[test]
fn malformed_temperature_is_rejected() {
    for bad in ["warm", "", ".", "1e", "1.2.3", "+-3", "e5", "0.4 ", "nan7"] {
        let args = strings(&["vibe", "--model", "m", "--file", "f", "--temperature", bad]);
        assert_eq!(
            parse_cli_args(&args).unwrap_err(),
            ParseError::InvalidTemperature,
            "value {bad:?} must be rejected"
        );
        assert!(bad.parse::<f32>().is_err());
    }
}

#[test]
fn float_temperatures_are_accepted() {
    for good in [
        "0.4", "1", "-0.25", "12.5", "1e-5", ".4", "4.", "3E8", "+2.5e+3", "inf", "-Infinity",
        "NaN",
    ] {
        let args = strings(&["vibe", "--model", "m", "--file", "f", "--temperature", good]);
        let a = parse_cli_args(&args).unwrap();
        assert_eq!(a.temperature.as_deref(), Some(good));
        // the engine boundary converts the validated text
        assert!(good.parse::<f32>().is_ok());
    }
}

#[test]
fn malformed_thread_count_is_rejected() {
    for bad in ["2.5", "four", "", "9999999999999"] {
        let args = strings(&["vibe", "--model", "m", "--file", "f", "--n-threads", bad]);
        assert_eq!(parse_cli_args(&args).unwrap_err(), ParseError::InvalidThreads);
    }
}

#[test]
fn thread_count_bounds_are_exact() {
    let args = strings(&["vibe", "--model", "m", "--file", "f", "--n-threads", "2147483647"]);
    assert_eq!(parse_cli_args(&args).unwrap().n_threads, Some(i32::MAX));
    let args = strings(&["vibe", "--model", "m", "--file", "f", "--n-threads", "-2147483648"]);
    assert_eq!(parse_cli_args(&args).unwrap().n_threads, Some(i32::MIN));
    let args = strings(&["vibe", "--model", "m", "--file", "f", "--n-threads", "2147483648"]);
    assert_eq!(parse_cli_args(&args).unwrap_err(), ParseError::InvalidThreads);
}

#[test]
fn translate_takes_only_booleans() {
    let args = strings(&["vibe", "--model", "m", "--file", "f", "--translate", "maybe"]);
    assert_eq!(parse_cli_args(&args).unwrap_err(), ParseError::InvalidTranslate);
    let args = strings(&["vibe", "--model", "m", "--file", "f", "--translate", "false"]);
    assert_eq!(parse_cli_args(&args).unwrap().translate, Some(false));
}
