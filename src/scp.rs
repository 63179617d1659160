use crate::connection::{ConnectionArgsFrom, ConnectionArgsTo, from_violation, to_violation};
use crate::error::{CrustError, ExitCode};
use crate::machine::{MachineType, opt_str_view};
use crate::text::{after_first, before_first, has_char, split_once_char};
use vstd::prelude::*;

verus! {

/// The source of a copy: a path, on a remote machine where options are given.
#[derive(Debug, Clone)]
pub struct ScpConnectionArgsFrom {
    pub path_from: String,
    pub remote_params: Option<ConnectionArgsFrom>,
}

/// The destination of a copy.
#[derive(Debug, Clone)]
pub struct ScpConnectionArgsTo {
    pub path_to: String,
    pub remote_params: Option<ConnectionArgsTo>,
}

/// A copy between two machines.
#[derive(Debug, Clone)]
pub struct ScpArgs {
    pub src: ScpConnectionArgsFrom,
    pub dst: ScpConnectionArgsTo,
    pub progress: bool,
    pub threads: Option<u8>,
}

pub open spec fn scp_violation(a: ScpArgs) -> Option<Seq<char>> {
    match a.src.remote_params {
        Some(p) if from_violation(p) is Some => from_violation(p),
        _ => match a.dst.remote_params {
            Some(p) => to_violation(p),
            None => None,
        },
    }
}

impl ScpConnectionArgsFrom {
    pub fn validate(&self) -> (r: Result<(), CrustError>)
        ensures
            match self.remote_params {
                Some(p) => match from_violation(p) {
                    None => r is Ok,
                    Some(m) => r matches Err(e) && e.code == ExitCode::Parser && e.message@ == m,
                },
                None => r is Ok,
            },
    {
        match &self.remote_params {
            Some(p) => p.validate(),
            None => Ok(()),
        }
    }
}

impl ScpConnectionArgsTo {
    pub fn validate(&self) -> (r: Result<(), CrustError>)
        ensures
            match self.remote_params {
                Some(p) => match to_violation(p) {
                    None => r is Ok,
                    Some(m) => r matches Err(e) && e.code == ExitCode::Parser && e.message@ == m,
                },
                None => r is Ok,
            },
    {
        match &self.remote_params {
            Some(p) => p.validate(),
            None => Ok(()),
        }
    }
}

impl ScpArgs {
    /// Checks the source options, then the destination options.
    pub fn validate(&self) -> (r: Result<(), CrustError>)
        ensures
            match scp_violation(*self) {
                None => r is Ok,
                Some(m) => r matches Err(e) && e.code == ExitCode::Parser && e.message@ == m,
            },
    {
        self.src.validate()?;
        self.dst.validate()?;
        Ok(())
    }
}

/// A copy whose options were taken apart into plain fields.
#[derive(Debug)]
pub struct ValidatedArgs {
    pub path_from: String,
    pub username_from: Option<String>,
    pub hostname_from: Option<String>,
    pub port_from: Option<u16>,
    pub password_from: Option<String>,
    pub pkey_from: Option<String>,
    pub alias_from: Option<String>,
    pub path_to: String,
    pub username_to: Option<String>,
    pub hostname_to: Option<String>,
    pub port_to: Option<u16>,
    pub password_to: Option<String>,
    pub pkey_to: Option<String>,
    pub alias_to: Option<String>,
    pub progress: bool,
}

/// An address that can be split into user and host.
pub open spec fn splittable(addr: Option<String>) -> bool {
    addr matches Some(a) && has_char(a@, '@')
}

fn split_user_host(addr: &Option<String>) -> (r: (String, String))
    requires
        splittable(*addr),
    ensures
        r.0@ == before_first(addr->Some_0@, '@'),
        r.1@ == after_first(addr->Some_0@, '@'),
{
    let a = addr.as_ref().unwrap();
    let (u, h) = split_once_char(a.as_str(), '@').unwrap();
    (u.to_string(), h.to_string())
}

fn clone_opt(o: &Option<String>) -> (r: Option<String>)
    ensures
        opt_str_view(r) == opt_str_view(*o),
{
    match o {
        Some(s) => Some(s.clone()),
        None => None,
    }
}

impl ValidatedArgs {
    /// Flattens the options: an alias stands alone; otherwise the address is
    /// split into user and host and the other options are carried over.
    pub fn validate_and_create(raw_args: ScpArgs) -> (r: Result<ValidatedArgs, CrustError>)
        requires
            raw_args.src.remote_params matches Some(p) ==> (p.alias_from.is_none() ==> splittable(p.addr_from)),
            raw_args.dst.remote_params matches Some(p) ==> (p.alias_to.is_none() ==> splittable(p.addr_to)),
        ensures
            r matches Ok(v) && {
                &&& v.path_from@ == raw_args.src.path_from@
                &&& v.path_to@ == raw_args.dst.path_to@
                &&& v.progress == raw_args.progress
                &&& match raw_args.src.remote_params {
                    None => v.alias_from is None && v.username_from is None && v.hostname_from is None
                        && v.port_from is None && v.password_from is None && v.pkey_from is None,
                    Some(p) => match p.alias_from {
                        Some(a) => opt_str_view(v.alias_from) == Some(a@) && v.username_from is None
                            && v.hostname_from is None && v.port_from is None && v.password_from is None
                            && v.pkey_from is None,
                        None => v.alias_from is None
                            && opt_str_view(v.username_from) == Some(before_first(p.addr_from->Some_0@, '@'))
                            && opt_str_view(v.hostname_from) == Some(after_first(p.addr_from->Some_0@, '@'))
                            && v.port_from == p.port_from
                            && opt_str_view(v.password_from) == opt_str_view(p.password_from)
                            && opt_str_view(v.pkey_from) == opt_str_view(p.pkey_from),
                    },
                }
                &&& match raw_args.dst.remote_params {
                    None => v.alias_to is None && v.username_to is None && v.hostname_to is None
                        && v.port_to is None && v.password_to is None && v.pkey_to is None,
                    Some(p) => match p.alias_to {
                        Some(a) => opt_str_view(v.alias_to) == Some(a@) && v.username_to is None
                            && v.hostname_to is None && v.port_to is None && v.password_to is None
                            && v.pkey_to is None,
                        None => v.alias_to is None
                            && opt_str_view(v.username_to) == Some(before_first(p.addr_to->Some_0@, '@'))
                            && opt_str_view(v.hostname_to) == Some(after_first(p.addr_to->Some_0@, '@'))
                            && v.port_to == p.port_to
                            && opt_str_view(v.password_to) == opt_str_view(p.password_to)
                            && opt_str_view(v.pkey_to) == opt_str_view(p.pkey_to),
                    },
                }
            },
    {
        let mut port_from: Option<u16> = None;
        let mut pkey_from: Option<String> = None;
        let mut password_from: Option<String> = None;
        let mut username_from: Option<String> = None;
        let mut hostname_from: Option<String> = None;
        let mut alias_from: Option<String> = None;
        if let Some(args_from) = &raw_args.src.remote_params {
            if let Some(alias) = &args_from.alias_from {
                alias_from = Some(alias.clone());
            } else {
                let (u, h) = split_user_host(&args_from.addr_from);
                username_from = Some(u);
                hostname_from = Some(h);
                port_from = args_from.port_from;
                pkey_from = clone_opt(&args_from.pkey_from);
                password_from = clone_opt(&args_from.password_from);
            }
        }
        let mut port_to: Option<u16> = None;
        let mut pkey_to: Option<String> = None;
        let mut password_to: Option<String> = None;
        let mut username_to: Option<String> = None;
        let mut hostname_to: Option<String> = None;
        let mut alias_to: Option<String> = None;
        if let Some(args_to) = &raw_args.dst.remote_params {
            if let Some(alias) = &args_to.alias_to {
                alias_to = Some(alias.clone());
            } else {
                let (u, h) = split_user_host(&args_to.addr_to);
                username_to = Some(u);
                hostname_to = Some(h);
                port_to = args_to.port_to;
                pkey_to = clone_opt(&args_to.pkey_to);
                password_to = clone_opt(&args_to.password_to);
            }
        }
        Ok(ValidatedArgs {
            path_from: raw_args.src.path_from,
            username_from,
            hostname_from,
            port_from,
            password_from,
            pkey_from,
            alias_from,
            path_to: raw_args.dst.path_to,
            username_to,
            hostname_to,
            port_to,
            password_to,
            pkey_to,
            alias_to,
            progress: raw_args.progress,
        })
    }
}

/// How a copy between two machines runs. There is no direct path between two
/// remote machines: such a copy is staged through a local temporary file.
#[derive(Debug, Clone, Copy, PartialEq, Eq, Structural)]
pub enum TransferRoute {
    Upload,
    Download,
    Staged,
}

pub open spec fn local_copy_message() -> Seq<char> {
    "You want to copy files between local machines. Use 'exec' instead."@
}

/// The route of a copy from a machine of kind `from` to one of kind `to`.
pub fn scp_route(from: MachineType, to: MachineType) -> (r: Result<TransferRoute, CrustError>)
    requires
        from != MachineType::AbstractMachine,
        to != MachineType::AbstractMachine,
    ensures
        match (from, to) {
            (MachineType::LocalMachine, MachineType::RemoteMachine) => r == Ok::<TransferRoute, CrustError>(TransferRoute::Upload),
            (MachineType::RemoteMachine, MachineType::LocalMachine) => r == Ok::<TransferRoute, CrustError>(TransferRoute::Download),
            (MachineType::RemoteMachine, MachineType::RemoteMachine) => r == Ok::<TransferRoute, CrustError>(TransferRoute::Staged),
            _ => r matches Err(e) && e.code == ExitCode::Local && e.message@ == local_copy_message(),
        },
{
    match (from, to) {
        (MachineType::LocalMachine, MachineType::RemoteMachine) => Ok(TransferRoute::Upload),
        (MachineType::RemoteMachine, MachineType::LocalMachine) => Ok(TransferRoute::Download),
        (MachineType::RemoteMachine, MachineType::RemoteMachine) => Ok(TransferRoute::Staged),
        _ => Err(
            CrustError::new(
                ExitCode::Local,
                "You want to copy files between local machines. Use 'exec' instead.".to_string(),
            ),
        ),
    }
}

/// Which way a single copy goes: local to remote, or remote to local.
#[derive(Debug, Clone, Copy, PartialEq, Eq, Structural)]
pub enum Direction {
    Upload,
    Download,
}

/// What the source path turned out to be.
#[derive(Debug, Clone, Copy, PartialEq, Eq, Structural)]
pub enum EntryKind {
    Missing,
    File,
    Directory,
    Other,
}

/// What a copy of one path does.
#[derive(Debug, Clone, Copy, PartialEq, Eq, Structural)]
pub enum CopyPlan {
    /// Stream the file's bytes.
    CopyFile,
    /// Make the destination directory, then copy each entry into it.
    MakeDirectory,
}

/// A name for what `{:?}` writes for a path (quoted, with escapes).
pub uninterp spec fn debug_text(s: Seq<char>) -> Seq<char>;

/// Relies on the standard library's `Debug` for `Path`: the path quoted and
/// escaped, a function of the text alone.
#[verifier::external_body]
fn debug_quoted(s: &str) -> (r: String)
    ensures
        r@ == debug_text(s@),
{
    format!("{:?}", std::path::Path::new(s))
}

/// The kind of the source side and of the destination side of a copy.
pub open spec fn source_code(d: Direction) -> ExitCode {
    match d {
        Direction::Upload => ExitCode::Local,
        Direction::Download => ExitCode::Remote,
    }
}

pub open spec fn destination_code(d: Direction) -> ExitCode {
    match d {
        Direction::Upload => ExitCode::Remote,
        Direction::Download => ExitCode::Local,
    }
}

pub open spec fn exists_message(to: Seq<char>) -> Seq<char> {
    "Directory '"@ + debug_text(to) + "' already exists"@
}

pub open spec fn missing_source_message(from: Seq<char>) -> Seq<char> {
    "Requested source '"@ + debug_text(from) + "' does not exist"@
}

pub open spec fn not_copyable_message(from: Seq<char>) -> Seq<char> {
    "'"@ + debug_text(from) + "' source is not file or directory"@
}

fn source_error_code(d: Direction) -> (r: ExitCode)
    ensures
        r == source_code(d),
{
    match d {
        Direction::Upload => ExitCode::Local,
        Direction::Download => ExitCode::Remote,
    }
}

fn destination_error_code(d: Direction) -> (r: ExitCode)
    ensures
        r == destination_code(d),
{
    match d {
        Direction::Upload => ExitCode::Remote,
        Direction::Download => ExitCode::Local,
    }
}

/// Decides the copy of one path. A file is streamed. A directory is copied
/// into a new destination directory, and never merged into one that exists:
/// then nothing is copied at all.
pub fn plan_copy(direction: Direction, source: EntryKind, destination_exists: bool, from: &str, to: &str) -> (r: Result<CopyPlan, CrustError>)
    ensures
        match source {
            EntryKind::File => r == Ok::<CopyPlan, CrustError>(CopyPlan::CopyFile),
            EntryKind::Directory => if destination_exists {
                r matches Err(e) && e.code == destination_code(direction) && e.message@ == exists_message(to@)
            } else {
                r == Ok::<CopyPlan, CrustError>(CopyPlan::MakeDirectory)
            },
            EntryKind::Missing => r matches Err(e) && e.code == source_code(direction)
                && e.message@ == missing_source_message(from@),
            EntryKind::Other => r matches Err(e) && e.code == source_code(direction)
                && e.message@ == not_copyable_message(from@),
        },
{
    match source {
        EntryKind::File => Ok(CopyPlan::CopyFile),
        EntryKind::Directory => {
            if destination_exists {
                let m = "Directory '".to_string().concat(debug_quoted(to).as_str()).concat("' already exists");
                Err(CrustError::new(destination_error_code(direction), m))
            } else {
                Ok(CopyPlan::MakeDirectory)
            }
        },
        EntryKind::Missing => {
            let m = "Requested source '".to_string().concat(debug_quoted(from).as_str()).concat("' does not exist");
            Err(CrustError::new(source_error_code(direction), m))
        },
        EntryKind::Other => {
            let m = "'".to_string().concat(debug_quoted(from).as_str()).concat("' source is not file or directory");
            Err(CrustError::new(source_error_code(direction), m))
        },
    }
}

/// What a set of parallel workers was doing.
#[derive(Debug, Clone, Copy, PartialEq, Eq, Structural)]
pub enum WorkerJob {
    /// Copying the entries of a directory.
    DirectoryEntries,
    /// Sending the chunks of a file.
    ChunkUpload,
    /// Fetching the chunks of a file.
    ChunkDownload,
}

/// The message that reports a failed worker of `job`.
pub open spec fn thread_error_message(job: WorkerJob) -> Seq<char> {
    match job {
        WorkerJob::DirectoryEntries => "Thread error"@,
        WorkerJob::ChunkUpload => "Thread [upload] error occured"@,
        WorkerJob::ChunkDownload => "Thread [download] error occured"@,
    }
}

fn thread_error_text(job: WorkerJob) -> (r: &'static str)
    ensures
        r@ == thread_error_message(job),
{
    match job {
        WorkerJob::DirectoryEntries => "Thread error",
        WorkerJob::ChunkUpload => "Thread [upload] error occured",
        WorkerJob::ChunkDownload => "Thread [download] error occured",
    }
}

/// The outcome of a set of parallel workers once all were joined: one
/// aggregate error, naming the job, where any of them did not complete
/// normally, whatever the others did.
pub fn workers_outcome(completed: &Vec<bool>, job: WorkerJob) -> (r: Result<(), CrustError>)
    ensures
        r is Ok <==> forall|i: int| 0 <= i < completed@.len() ==> completed@[i],
        r matches Err(e) ==> e.code == ExitCode::Internal && e.message@ == thread_error_message(job),
{
    let mut i: usize = 0;
    while i < completed.len()
        invariant
            i <= completed@.len(),
            forall|j: int| 0 <= j < i ==> completed@[j],
        decreases completed@.len() - i,
    {
        if !completed[i] {
            return Err(CrustError::new(ExitCode::Internal, thread_error_text(job).to_string()));
        }
        i = i + 1;
    }
    Ok(())
}

/// `dir` joined with `name` as a path: an absolute name replaces the
/// directory; otherwise one separator goes between them, none after a
/// trailing one.
pub open spec fn child_path(dir: Seq<char>, name: Seq<char>) -> Seq<char> {
    if name.len() > 0 && name[0] == '/' {
        name
    } else if dir.len() == 0 || dir.last() == '/' {
        dir + name
    } else {
        dir + "/"@ + name
    }
}

/// `dir` joined with `name` as a path.
pub fn join_path(dir: &str, name: &str) -> (r: String)
    ensures
        r@ == child_path(dir@, name@),
{
    if name.unicode_len() > 0 && name.get_char(0) == '/' {
        return name.to_string();
    }
    let n = dir.unicode_len();
    if n == 0 || dir.get_char(n - 1) == '/' {
        dir.to_string().concat(name)
    } else {
        dir.to_string().concat("/").concat(name)
    }
}

} // verus!
