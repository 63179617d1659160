use crate::connection::{ConnectionArgsTo, to_violation};
use crate::error::{CrustError, ExitCode};
use crate::scp::{ScpArgs, scp_violation};
use vstd::prelude::*;

verus! {

/// A command to run, on the local machine or on the remote one that the
/// options name.
#[derive(Debug, Clone)]
pub struct ExecArgs {
    pub cmd: Option<Vec<String>>,
    pub remote: Option<ConnectionArgsTo>,
    /// Stream the output as it comes instead of collecting it.
    pub rt: bool,
    /// Send standard error into standard output.
    pub merge: bool,
}

/// The words joined by single spaces.
pub open spec fn joined_words(words: Seq<Seq<char>>) -> Seq<char>
    decreases words.len(),
{
    if words.len() == 0 {
        Seq::empty()
    } else if words.len() == 1 {
        words[0]
    } else {
        joined_words(words.drop_last()) + " "@ + words.last()
    }
}

pub open spec fn words_view(words: Seq<String>) -> Seq<Seq<char>> {
    words.map_values(|w: String| w@)
}

/// The words of a command joined into one command line.
pub fn join_words(words: &Vec<String>) -> (r: String)
    ensures
        r@ == joined_words(words_view(words@)),
{
    let mut r = String::new();
    let mut i: usize = 0;
    while i < words.len()
        invariant
            i <= words@.len(),
            r@ == joined_words(words_view(words@.subrange(0, i as int))),
        decreases words@.len() - i,
    {
        let ghost prev = words_view(words@.subrange(0, i as int));
        let ghost next = words_view(words@.subrange(0, i + 1));
        assert(next.drop_last() =~= prev);
        assert(next.last() == words@[i as int]@);
        if i == 0 {
            r = words[i].clone();
        } else {
            r = r.concat(" ").concat(words[i].as_str());
        }
        i = i + 1;
    }
    assert(words@.subrange(0, words@.len() as int) =~= words@);
    r
}

/// The command so that its error output is merged into its standard output.
pub fn merged_command(cmd: &str) -> (r: String)
    ensures
        r@ == cmd@ + " 2>&1"@,
{
    cmd.to_string().concat(" 2>&1")
}

impl ExecArgs {
    /// Remote options, where given, must be valid.
    pub fn validate(&self) -> (r: Result<(), CrustError>)
        ensures
            match self.remote {
                Some(p) => match to_violation(p) {
                    None => r is Ok,
                    Some(m) => r matches Err(e) && e.code == ExitCode::Parser && e.message@ == m,
                },
                None => r is Ok,
            },
    {
        match &self.remote {
            Some(p) => p.validate(),
            None => Ok(()),
        }
    }

    /// The command line to run.
    pub fn command_line(&self) -> (r: String)
        requires
            self.cmd.is_some(),
        ensures
            r@ == joined_words(words_view(self.cmd->Some_0@)),
    {
        join_words(self.cmd.as_ref().unwrap())
    }
}

/// What the command line asks for.
#[derive(Debug, Clone)]
pub enum Operation {
    /// Execute a command on a machine.
    Exec(ExecArgs),
    /// Copy data between two machines.
    Scp(ScpArgs),
}

impl Operation {
    pub fn validate(&self) -> (r: Result<(), CrustError>)
        ensures
            match self {
                Operation::Exec(a) => match a.remote {
                    Some(p) => match to_violation(p) {
                        None => r is Ok,
                        Some(m) => r matches Err(e) && e.code == ExitCode::Parser && e.message@ == m,
                    },
                    None => r is Ok,
                },
                Operation::Scp(a) => match scp_violation(*a) {
                    None => r is Ok,
                    Some(m) => r matches Err(e) && e.code == ExitCode::Parser && e.message@ == m,
                },
            },
    {
        match self {
            Operation::Exec(args) => args.validate(),
            Operation::Scp(args) => args.validate(),
        }
    }
}

} // verus!
