use crate::response::CrustResult;
use text_colorizer::Colorize;
use vstd::prelude::*;

verus! {

/// The kinds of failure, each with the process exit code that reports it.
#[derive(Debug, Clone, Copy, PartialEq, Eq, Structural)]
pub enum ExitCode {
    Remote,
    Local,
    Std,
    Ssh,
    Internal,
    Parser,
}

impl ExitCode {
    pub open spec fn spec_int(self) -> i32 {
        match self {
            ExitCode::Remote => 1,
            ExitCode::Local => 2,
            ExitCode::Std => 3,
            ExitCode::Ssh => 4,
            ExitCode::Internal => 5,
            ExitCode::Parser => 6,
        }
    }

    pub open spec fn spec_label(self) -> Seq<char> {
        match self {
            ExitCode::Remote => "[RemoteMachine]"@,
            ExitCode::Local => "[LocalMachine]"@,
            ExitCode::Std => "[StdError]"@,
            ExitCode::Ssh => "[SSH]"@,
            ExitCode::Internal => "[Internal]"@,
            ExitCode::Parser => "[Parser]"@,
        }
    }

    /// The exit code of the process that fails with this kind.
    pub fn to_int(&self) -> (r: i32)
        ensures
            r == self.spec_int(),
            1 <= r <= 6,
    {
        match self {
            ExitCode::Remote => 1,
            ExitCode::Local => 2,
            ExitCode::Std => 3,
            ExitCode::Ssh => 4,
            ExitCode::Internal => 5,
            ExitCode::Parser => 6,
        }
    }

    /// The bracketed tag that opens a message of this kind.
    pub fn label(&self) -> (r: &'static str)
        ensures
            r@ == self.spec_label(),
    {
        match self {
            ExitCode::Remote => "[RemoteMachine]",
            ExitCode::Local => "[LocalMachine]",
            ExitCode::Std => "[StdError]",
            ExitCode::Ssh => "[SSH]",
            ExitCode::Internal => "[Internal]",
            ExitCode::Parser => "[Parser]",
        }
    }
}

/// Every failure of the library: its kind and a human-readable message.
#[derive(Debug, Clone)]
pub struct CrustError {
    pub code: ExitCode,
    pub message: String,
}

/// The escape sequence that turns the foreground red.
pub open spec fn red_code() -> Seq<char> {
    seq!['\x1b', '[', '3', '1', 'm']
}

/// The escape sequence that turns the foreground green.
pub open spec fn green_code() -> Seq<char> {
    seq!['\x1b', '[', '3', '2', 'm']
}

/// The escape sequence that resets all styles.
pub open spec fn reset_code() -> Seq<char> {
    seq!['\x1b', '[', '0', 'm']
}

pub open spec fn contains_reset(s: Seq<char>) -> bool {
    exists|i: int| 0 <= i && i + 4 <= s.len() && #[trigger] s.subrange(i, i + 4) == reset_code()
}

/// `p` is what painting `s` with the style `code` may print: `s` itself where
/// the terminal takes no colours, else `s` between the style and a reset
/// (resets inside `s` are re-styled, which leaves such a text unconstrained).
pub open spec fn is_painted(s: Seq<char>, code: Seq<char>, p: Seq<char>) -> bool {
    p == s || p == code + s + reset_code() || contains_reset(s)
}

/// Relies on text_colorizer's `Colorize::red` and the `Display` of the
/// `ColoredString` it returns: plain where colours are off (by environment or
/// terminal), else wrapped in the red style and a reset.
#[verifier::external_body]
fn paint_red(s: &str) -> (r: String)
    ensures
        is_painted(s@, red_code(), r@),
{
    s.red().to_string()
}

/// Relies on text_colorizer's `Colorize::green`, as `paint_red` does.
#[verifier::external_body]
fn paint_green(s: &str) -> (r: String)
    ensures
        is_painted(s@, green_code(), r@),
{
    s.green().to_string()
}

/// Relies on `std::io::Error`'s `Display`: the text of the error.
#[verifier::external_body]
fn io_error_text(e: &std::io::Error) -> (r: String) {
    e.to_string()
}

/// Relies on `std::string::FromUtf8Error`'s `Display`: the text of the error.
#[verifier::external_body]
fn utf8_error_text(e: &std::string::FromUtf8Error) -> (r: String) {
    e.to_string()
}

/// Relies on the error's `Display` (through `ToString`): its text.
#[verifier::external_body]
fn error_text<E: std::error::Error + ?Sized>(e: &E) -> (r: String) {
    e.to_string()
}

#[verifier::external_type_specification]
#[verifier::external_body]
pub struct ExIoError(std::io::Error);

#[verifier::external_type_specification]
#[verifier::external_body]
pub struct ExFromUtf8Error(std::string::FromUtf8Error);

impl CrustError {
    pub fn new(code: ExitCode, message: String) -> (r: CrustError)
        ensures
            r.code == code,
            r.message@ == message@,
    {
        CrustError { code, message }
    }

    /// A failure of the standard library's I/O, reported with its own text.
    pub fn from_io(e: &std::io::Error) -> (r: CrustError)
        ensures
            r.code == ExitCode::Std,
    {
        CrustError { code: ExitCode::Std, message: io_error_text(e) }
    }

    /// Any other error (a boxed one included): an internal failure,
    /// reported with the error's own text.
    pub fn from_error<E: std::error::Error + ?Sized>(e: &E) -> (r: CrustError)
        ensures
            r.code == ExitCode::Internal,
    {
        CrustError { code: ExitCode::Internal, message: error_text(e) }
    }

    /// Bytes that are not UTF-8 where text was expected: an internal failure.
    pub fn from_utf8(e: &std::string::FromUtf8Error) -> (r: CrustError)
        ensures
            r.code == ExitCode::Internal,
    {
        CrustError { code: ExitCode::Internal, message: utf8_error_text(e) }
    }

    /// The line that reports the error: its kind's tag, painted red where the
    /// terminal takes colours, then `": "` and the message.
    pub fn render(&self) -> (r: String)
        ensures
            exists|p: Seq<char>|
                is_painted(self.code.spec_label(), red_code(), p) && r@ == p + ": "@
                    + self.message@,
    {
        let tag = paint_red(self.code.label());
        let r = tag.concat(": ").concat(self.message.as_str());
        r
    }
}

/// What the process does at its end: the text to print, on which stream,
/// and the code to exit with.
pub struct ExitReport {
    pub code: i32,
    pub text: String,
    pub to_stderr: bool,
}

/// Decides how a finished run ends the process. It is a trait so that a
/// caller can handle the outcome otherwise (a test, a long-lived session).
pub trait ExitHandler {
    fn error(err: CrustError) -> ExitReport;

    fn success(result: CrustResult) -> ExitReport;
}

/// Ends a run by the outcome: an error goes to the error handler, a result to
/// the success handler.
pub fn handle_result<EH: ExitHandler>(result: Result<CrustResult, CrustError>) -> (r: ExitReport)
    ensures
        match result {
            Err(e) => call_ensures(EH::error, (e,), r),
            Ok(t) => call_ensures(EH::success, (t,), r),
        },
{
    match result {
        Err(e) => EH::error(e),
        Ok(t) => EH::success(t),
    }
}

/// The handler of the command line: errors are printed to standard error and
/// exit with their kind's code; results print their output, green when the
/// command succeeded and its error output in red otherwise, and exit with the
/// command's own code.
pub struct DefaultExitHandler {}

impl DefaultExitHandler {
    pub fn error_report(err: &CrustError) -> (r: ExitReport)
        ensures
            r.code == err.code.spec_int(),
            r.to_stderr,
            exists|p: Seq<char>|
                is_painted(err.code.spec_label(), red_code(), p) && r.text@ == p + ": "@
                    + err.message@,
    {
        ExitReport { code: err.code.to_int(), text: err.render(), to_stderr: true }
    }

    pub fn success_report(result: &CrustResult) -> (r: ExitReport)
        ensures
            r.code == result.spec_retcode(),
            !r.to_stderr,
            result.spec_retcode() == 0 ==> is_painted(result.spec_stdout(), green_code(), r.text@),
            result.spec_retcode() != 0 ==> is_painted(result.spec_stderr(), red_code(), r.text@),
    {
        let text = if result.is_success() {
            paint_green(result.stdout())
        } else {
            paint_red(result.stderr())
        };
        ExitReport { code: result.retcode(), text, to_stderr: false }
    }
}

impl ExitHandler for DefaultExitHandler {
    fn error(err: CrustError) -> ExitReport {
        DefaultExitHandler::error_report(&err)
    }

    fn success(result: CrustResult) -> ExitReport {
        DefaultExitHandler::success_report(&result)
    }
}

} // verus!
