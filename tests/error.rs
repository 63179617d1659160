use crust::error::{handle_result, CrustError, DefaultExitHandler, ExitCode};
use crust::response::CrustResult;
use std::sync::{Mutex, MutexGuard};

#[derive(Debug)]
struct CustomError;

impl std::error::Error for CustomError {}

impl std::fmt::Display for CustomError {
    fn fmt(&self, f: &mut std::fmt::Formatter<'_>) -> std::fmt::Result {
        f.write_str("Custom error")
    }
}

/// Colours are switched by a process-wide override: tests that set it take
/// turns.
static COLOUR: Mutex<()> = Mutex::new(());

fn colours(on: bool) -> MutexGuard<'static, ()> {
    let guard = COLOUR.lock().unwrap_or_else(|e| e.into_inner());
    text_colorizer::control::set_override(on);
    guard
}

#[test]
fn test_converts_box_error_into_crust_error() {
    let _guard = colours(true);
    let custom_error: Box<dyn std::error::Error> = Box::new(CustomError);
    let crust_error = CrustError::from_error(&*custom_error);

    assert_eq!(
        crust_error.render(),
        "\u{1b}[31m[Internal]\u{1b}[0m: Custom error".to_string()
    );
}

#[test]
fn test_converts_box_error_into_crust_error_ci() {
    let _guard = colours(false);
    let custom_error: Box<dyn std::error::Error> = Box::new(CustomError);
    let crust_error = CrustError::from_error(&*custom_error);

    assert_eq!(crust_error.render(), "[Internal]: Custom error".to_string());
}

#[test]
fn test_converts_fromstring_error_into_crust_error() {
    let _guard = colours(true);
    let fromstr_error = String::from_utf8(vec![0xC3, 0x28]).err().unwrap();
    let crust_error = CrustError::from_utf8(&fromstr_error);

    assert_eq!(
        crust_error.render(),
        "\u{1b}[31m[Internal]\u{1b}[0m: invalid utf-8 sequence of 1 bytes from index 0".to_string()
    );
}

#[test]
fn test_converts_fromstring_error_into_crust_error_ci() {
    let _guard = colours(false);
    let fromstr_error = String::from_utf8(vec![0xC3, 0x28]).err().unwrap();
    let crust_error = CrustError::from_utf8(&fromstr_error);

    assert_eq!(
        crust_error.render(),
        "[Internal]: invalid utf-8 sequence of 1 bytes from index 0".to_string()
    );
}

#[test]
fn test_converts_stdio_error_into_crust_error() {
    let _guard = colours(true);
    let io_error = std::io::Error::new(std::io::ErrorKind::Other, "Custom IO error");
    let crust_error = CrustError::from_io(&io_error);

    assert_eq!(
        crust_error.render(),
        "\u{1b}[31m[StdError]\u{1b}[0m: Custom IO error".to_string()
    );
}

#[test]
fn test_converts_stdio_error_into_crust_error_ci() {
    let _guard = colours(false);
    let io_error = std::io::Error::new(std::io::ErrorKind::Other, "Custom IO error");
    let crust_error = CrustError::from_io(&io_error);

    assert_eq!(crust_error.render(), "[StdError]: Custom IO error".to_string());
}

#[test]
fn exit_codes_follow_the_error_kinds() {
    assert_eq!(ExitCode::Remote.to_int(), 1);
    assert_eq!(ExitCode::Local.to_int(), 2);
    assert_eq!(ExitCode::Std.to_int(), 3);
    assert_eq!(ExitCode::Ssh.to_int(), 4);
    assert_eq!(ExitCode::Internal.to_int(), 5);
    assert_eq!(ExitCode::Parser.to_int(), 6);
}

#[test]
fn each_kind_renders_its_tag() {
    let _guard = colours(false);
    let cases = [
        (ExitCode::Remote, "[RemoteMachine]: m"),
        (ExitCode::Local, "[LocalMachine]: m"),
        (ExitCode::Std, "[StdError]: m"),
        (ExitCode::Ssh, "[SSH]: m"),
        (ExitCode::Internal, "[Internal]: m"),
        (ExitCode::Parser, "[Parser]: m"),
    ];
    for (code, expected) in cases {
        assert_eq!(CrustError::new(code, "m".to_string()).render(), expected);
    }
}

#[test]
fn error_outcome_exits_with_the_kind_code() {
    let _guard = colours(false);
    let err: Result<CrustResult, CrustError> = Err(CrustError::new(ExitCode::Internal, "test msg".to_string()));
    let report = handle_result::<DefaultExitHandler>(err);
    assert_eq!(report.code, 5);
    assert!(report.to_stderr);
    assert_eq!(report.text, "[Internal]: test msg");
}

#[test]
fn success_outcome_exits_with_the_command_code() {
    let _guard = colours(false);
    let report = handle_result::<DefaultExitHandler>(Ok(CrustResult::default()));
    assert_eq!(report.code, 0);
    assert!(!report.to_stderr);
    assert_eq!(report.text, "");

    let failed = handle_result::<DefaultExitHandler>(Ok(CrustResult::new("out", "bad\n", 127)));
    assert_eq!(failed.code, 127);
    assert_eq!(failed.text, "bad\n");
}

#[test]
fn success_outcome_paints_output_green() {
    let _guard = colours(true);
    let report = DefaultExitHandler::success_report(&CrustResult::new("test\n", "", 0));
    assert_eq!(report.text, "\u{1b}[32mtest\n\u{1b}[0m");
}

#[test]
fn handle_result_reports_through_the_handler() {
    let _guard = colours(false);
    let via_handler = DefaultExitHandler::error_report(&CrustError::new(ExitCode::Ssh, "x".to_string()));
    let report = handle_result::<DefaultExitHandler>(Err(CrustError::new(ExitCode::Ssh, "x".to_string())));
    assert_eq!(report.text, via_handler.text);
    assert_eq!(report.code, via_handler.code);
}
