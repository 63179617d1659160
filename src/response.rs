use vstd::prelude::*;

verus! {

/// What a command left behind: its captured output streams and exit code.
/// The fields are private so that a result is never changed once made.
#[derive(Debug)]
pub struct CrustResult {
    stdout: String,
    stderr: String,
    retcode: i32,
}

impl CrustResult {
    pub closed spec fn spec_stdout(&self) -> Seq<char> {
        self.stdout@
    }

    pub closed spec fn spec_stderr(&self) -> Seq<char> {
        self.stderr@
    }

    pub closed spec fn spec_retcode(&self) -> i32 {
        self.retcode
    }

    pub fn new(stdout: &str, stderr: &str, retcode: i32) -> (r: CrustResult)
        ensures
            r.spec_stdout() == stdout@,
            r.spec_stderr() == stderr@,
            r.spec_retcode() == retcode,
    {
        CrustResult { stdout: stdout.to_string(), stderr: stderr.to_string(), retcode }
    }

    /// The captured standard output.
    pub fn stdout(&self) -> (r: &str)
        ensures
            r@ == self.spec_stdout(),
    {
        self.stdout.as_str()
    }

    /// The captured standard error.
    pub fn stderr(&self) -> (r: &str)
        ensures
            r@ == self.spec_stderr(),
    {
        self.stderr.as_str()
    }

    /// The exit code.
    pub fn retcode(&self) -> (r: i32)
        ensures
            r == self.spec_retcode(),
    {
        self.retcode
    }

    /// A command succeeded when it exited with code zero.
    pub fn is_success(&self) -> (r: bool)
        ensures
            r == (self.spec_retcode() == 0),
    {
        self.retcode == 0
    }
}

impl Default for CrustResult {
    /// A successful run that printed nothing.
    fn default() -> (r: CrustResult)
        ensures
            r.spec_stdout() == Seq::<char>::empty(),
            r.spec_stderr() == Seq::<char>::empty(),
            r.spec_retcode() == 0,
    {
        CrustResult { stdout: String::new(), stderr: String::new(), retcode: 0 }
    }
}

} // verus!
