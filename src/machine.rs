use crate::connection::SshConnection;
use crate::error::{CrustError, ExitCode};
use crate::text::decimal_string;
use vstd::prelude::*;

verus! {

/// The identity of a registered machine: made from its user, host and port
/// (all absent for the local machine), or an alias that a user chose.
#[derive(Debug, Hash, Eq)]
pub enum MachineID {
    Default(Option<String>, Option<String>, Option<u16>),
    Custom(String),
}

/// The mathematical value of a [`MachineID`].
pub enum IdView {
    Default(Option<Seq<char>>, Option<Seq<char>>, Option<u16>),
    Custom(Seq<char>),
}

pub open spec fn opt_str_view(o: Option<String>) -> Option<Seq<char>> {
    match o {
        Some(s) => Some(s@),
        None => None,
    }
}

impl View for MachineID {
    type V = IdView;

    open spec fn view(&self) -> IdView {
        match self {
            MachineID::Default(u, h, p) => IdView::Default(opt_str_view(*u), opt_str_view(*h), *p),
            MachineID::Custom(s) => IdView::Custom(s@),
        }
    }
}

fn opt_string_eq(a: &Option<String>, b: &Option<String>) -> (r: bool)
    ensures
        r == (opt_str_view(*a) == opt_str_view(*b)),
{
    match (a, b) {
        (Some(x), Some(y)) => x.eq(y),
        (None, None) => true,
        _ => false,
    }
}

fn opt_port_eq(a: &Option<u16>, b: &Option<u16>) -> (r: bool)
    ensures
        r == (*a == *b),
{
    match (a, b) {
        (Some(x), Some(y)) => *x == *y,
        (None, None) => true,
        _ => false,
    }
}

pub(crate) fn opt_string_clone(a: &Option<String>) -> (r: Option<String>)
    ensures
        opt_str_view(r) == opt_str_view(*a),
{
    match a {
        Some(x) => Some(x.clone()),
        None => None,
    }
}

impl PartialEq for MachineID {
    fn eq(&self, other: &MachineID) -> (r: bool)
        ensures
            r == (self@ == other@),
    {
        match (self, other) {
            (MachineID::Default(u1, h1, p1), MachineID::Default(u2, h2, p2)) => {
                opt_string_eq(u1, u2) && opt_string_eq(h1, h2) && opt_port_eq(p1, p2)
            },
            (MachineID::Custom(a), MachineID::Custom(b)) => a.eq(b),
            _ => false,
        }
    }
}

impl vstd::std_specs::cmp::PartialEqSpecImpl for MachineID {
    open spec fn obeys_eq_spec() -> bool {
        true
    }

    open spec fn eq_spec(&self, other: &MachineID) -> bool {
        self@ == other@
    }
}

impl Clone for MachineID {
    fn clone(&self) -> (r: MachineID)
        ensures
            r@ == self@,
    {
        match self {
            MachineID::Default(u, h, p) => MachineID::Default(opt_string_clone(u), opt_string_clone(h), *p),
            MachineID::Custom(s) => MachineID::Custom(s.clone()),
        }
    }
}

impl Default for MachineID {
    /// The identity of the local machine.
    fn default() -> (r: MachineID)
        ensures
            r@ == IdView::Default(None, None, None),
    {
        MachineID::Default(None, None, None)
    }
}

impl MachineID {
    /// The identity made from connection parameters: all three for a remote
    /// machine, none for the local one.
    pub fn new(user: Option<String>, host: Option<String>, port: Option<u16>) -> (r: MachineID)
        requires
            (user.is_some() && host.is_some() && port.is_some()) || (user.is_none() && host.is_none() && port.is_none()),
        ensures
            r@ == IdView::Default(opt_str_view(user), opt_str_view(host), port),
    {
        MachineID::Default(user, host, port)
    }

    /// How the identity is shown: `MachineID<alias>` for an alias, else
    /// `MachineID<n>` with `n` a hash of user, host and port.
    pub fn to_text(&self) -> (r: String)
        ensures
            id_text(self@, r@),
    {
        let inner = match self {
            MachineID::Default(u, h, p) => decimal_string(default_id_hash(u, h, p) as u128),
            MachineID::Custom(a) => a.clone(),
        };
        "MachineID<".to_string().concat(inner.as_str()).concat(">")
    }
}

/// `t` is how the identity `id` is shown. The hash of user, host and port
/// may differ between builds and machines, so only its form is known.
pub open spec fn id_text(id: IdView, t: Seq<char>) -> bool {
    match id {
        IdView::Custom(a) => t == "MachineID<"@ + a + ">"@,
        IdView::Default(..) => exists|n: u64| t == "MachineID<"@ + crate::text::decimal(n as nat) + ">"@,
    }
}

/// Relies on `BuildHasher::hash_one` with std's default hasher, which hashes
/// the three parts in order as one value. Nothing is claimed of the number:
/// the algorithm may change between releases and its input between machines.
#[verifier::external_body]
fn default_id_hash(user: &Option<String>, host: &Option<String>, port: &Option<u16>) -> (r: u64) {
    std::hash::BuildHasher::hash_one(
        &std::hash::BuildHasherDefault::<std::collections::hash_map::DefaultHasher>::default(),
        (user, host, port),
    )
}

/// Which kind of machine a value stands for.
#[derive(Debug, Clone, Copy, PartialEq, Eq, Structural)]
pub enum MachineType {
    AbstractMachine,
    LocalMachine,
    RemoteMachine,
}

/// A temporary directory as a machine knows it: its path once made, and
/// whether this machine is the one that deletes it.
struct TmpdirSlot {
    path: Option<String>,
    owner: bool,
}

/// What making a temporary directory comes to: the one that exists, or a new
/// path to make.
pub enum TmpdirPlan {
    Existing(String),
    Create(String),
}

/// Where temporary directories are made: a scratch path and a unique token.
pub open spec fn tmpdir_path(token: u128) -> Seq<char> {
    "/tmp/tmp."@ + crate::text::decimal(token as nat)
}

pub open spec fn tmpfile_message() -> Seq<char> {
    "You wanted to create tempfile, but you have not created tempdir!"@
}

/// Relies on uuid's `Uuid::new_v4` and `Uuid::as_u128`: a random token for
/// naming a temporary directory; nothing is known of its value.
#[verifier::external_body]
pub fn fresh_token() -> (r: u128) {
    uuid::Uuid::new_v4().as_u128()
}

/// The temporary directory path named by `token`, under the scratch location.
pub fn tmpdir_path_for(token: u128) -> (r: String)
    ensures
        r@ == tmpdir_path(token),
{
    "/tmp/tmp.".to_string().concat(decimal_string(token).as_str())
}

impl TmpdirSlot {
    spec fn spec_path(&self) -> Option<Seq<char>> {
        opt_str_view(self.path)
    }

    fn plan(&self, token: u128) -> (r: TmpdirPlan)
        ensures
            match (self.spec_path(), r) {
                (Some(p), TmpdirPlan::Existing(q)) => q@ == p,
                (None, TmpdirPlan::Create(q)) => q@ == tmpdir_path(token),
                _ => false,
            },
    {
        match &self.path {
            Some(p) => TmpdirPlan::Existing(p.clone()),
            None => TmpdirPlan::Create(tmpdir_path_for(token)),
        }
    }

    fn content(&self, filename: &str, code: ExitCode) -> (r: Result<String, CrustError>)
        ensures
            match self.spec_path() {
                Some(p) => r matches Ok(q) && q@ == crate::scp::child_path(p, filename@),
                None => r matches Err(e) && e.code == code && e.message@ == tmpfile_message(),
            },
    {
        match &self.path {
            Some(p) => Ok(crate::scp::join_path(p.as_str(), filename)),
            None => Err(
                CrustError::new(
                    code,
                    "You wanted to create tempfile, but you have not created tempdir!".to_string(),
                ),
            ),
        }
    }

    fn removal_target(&self) -> (r: Option<String>)
        ensures
            opt_str_view(r) == (if self.owner { self.spec_path() } else { None }),
    {
        if self.owner {
            opt_string_clone(&self.path)
        } else {
            None
        }
    }
}

/// The machine this process runs on.
pub struct LocalMachine {
    id: MachineID,
    tmpdir: TmpdirSlot,
}

impl LocalMachine {
    pub closed spec fn spec_id(&self) -> IdView {
        self.id@
    }

    pub closed spec fn spec_tmpdir(&self) -> Option<Seq<char>> {
        self.tmpdir.spec_path()
    }

    /// Whether this value deletes the temporary directory when it is dropped.
    pub closed spec fn spec_owner(&self) -> bool {
        self.tmpdir.owner
    }

    /// A local machine with no temporary directory yet, which owns the one it
    /// will make.
    pub fn new() -> (r: LocalMachine)
        ensures
            r.spec_id() == IdView::Default(None, None, None),
            r.spec_tmpdir() is None,
            r.spec_owner(),
    {
        LocalMachine { id: LocalMachine::generate_id(), tmpdir: TmpdirSlot { path: None, owner: true } }
    }

    /// The identity of the local machine.
    pub fn generate_id() -> (r: MachineID)
        ensures
            r@ == IdView::Default(None, None, None),
    {
        MachineID::default()
    }

    pub fn get_id(&self) -> (r: &MachineID)
        ensures
            r@ == self.spec_id(),
    {
        &self.id
    }

    pub fn mtype(&self) -> (r: MachineType)
        ensures
            r == MachineType::LocalMachine,
    {
        MachineType::LocalMachine
    }

    pub fn can_be_removed(&self) -> (r: bool)
        ensures
            r == self.spec_owner(),
    {
        self.tmpdir.owner
    }

    pub fn tmpdir_exists(&self) -> (r: bool)
        ensures
            r == self.spec_tmpdir().is_some(),
    {
        self.tmpdir.path.is_some()
    }

    /// The temporary directory, which must have been made.
    pub fn get_tmpdir(&self) -> (r: &str)
        requires
            self.spec_tmpdir().is_some(),
        ensures
            Some(r@) == self.spec_tmpdir(),
    {
        self.tmpdir.path.as_ref().unwrap().as_str()
    }

    /// The directory that making a temporary directory stands for: the
    /// existing one, else the path named by `token` under the scratch
    /// location (a random token, from `fresh_token`, keeps it unique).
    pub fn create_tmpdir(&self, token: u128) -> (r: TmpdirPlan)
        ensures
            match (self.spec_tmpdir(), r) {
                (Some(p), TmpdirPlan::Existing(q)) => q@ == p,
                (None, TmpdirPlan::Create(q)) => q@ == tmpdir_path(token),
                _ => false,
            },
    {
        self.tmpdir.plan(token)
    }

    /// Records the temporary directory once it was made.
    pub fn set_tmpdir(&mut self, path: String)
        requires
            old(self).spec_tmpdir() is None,
        ensures
            final(self).spec_tmpdir() == Some(path@),
            final(self).spec_id() == old(self).spec_id(),
            final(self).spec_owner() == old(self).spec_owner(),
    {
        self.tmpdir.path = Some(path);
    }

    /// The path of a file named `filename` in the temporary directory, or an
    /// error where there is no temporary directory yet.
    pub fn create_tmpdir_content(&self, filename: &str) -> (r: Result<String, CrustError>)
        ensures
            match self.spec_tmpdir() {
                Some(p) => r matches Ok(q) && q@ == crate::scp::child_path(p, filename@),
                None => r matches Err(e) && e.code == ExitCode::Local && e.message@ == tmpfile_message(),
            },
    {
        self.tmpdir.content(filename, ExitCode::Local)
    }

    /// The directory to delete when this value goes away: its temporary
    /// directory, where there is one and this value owns it.
    pub fn removal_target(&self) -> (r: Option<String>)
        ensures
            opt_str_view(r) == spec_removal(self.spec_owner(), self.spec_tmpdir()),
    {
        self.tmpdir.removal_target()
    }
}

/// What a machine deletes when it goes away.
pub open spec fn spec_removal(owner: bool, tmpdir: Option<Seq<char>>) -> Option<Seq<char>> {
    if owner {
        tmpdir
    } else {
        None
    }
}

impl Default for LocalMachine {
    fn default() -> (r: LocalMachine)
        ensures
            r.spec_id() == IdView::Default(None, None, None),
            r.spec_tmpdir() is None,
            r.spec_owner(),
    {
        LocalMachine::new()
    }
}

impl Clone for LocalMachine {
    /// A copy that shares the temporary directory but never deletes it.
    fn clone(&self) -> (r: LocalMachine)
        ensures
            r.spec_id() == self.spec_id(),
            r.spec_tmpdir() == self.spec_tmpdir(),
            !r.spec_owner(),
    {
        LocalMachine {
            id: self.id.clone(),
            tmpdir: TmpdirSlot { path: opt_string_clone(&self.tmpdir.path), owner: false },
        }
    }
}

/// A machine reached over SSH.
pub struct RemoteMachine {
    id: MachineID,
    tmpdir: TmpdirSlot,
    ssh: SshConnection,
}

impl RemoteMachine {
    pub closed spec fn spec_id(&self) -> IdView {
        self.id@
    }

    pub closed spec fn spec_tmpdir(&self) -> Option<Seq<char>> {
        self.tmpdir.spec_path()
    }

    pub closed spec fn spec_owner(&self) -> bool {
        self.tmpdir.owner
    }

    pub closed spec fn spec_ssh(&self) -> SshConnection {
        self.ssh
    }

    /// A remote machine known by its user, host and port, not connected yet.
    pub fn new(user: &str, host: &str, password: Option<String>, pkey: Option<String>, port: u16) -> (r: RemoteMachine)
        ensures
            r.spec_id() == IdView::Default(Some(user@), Some(host@), Some(port)),
            r.spec_tmpdir() is None,
            r.spec_owner(),
            r.spec_ssh().spec_target(user@, host@, opt_str_view(password), opt_str_view(pkey), port),
            !r.spec_ssh().spec_connected(),
    {
        RemoteMachine {
            id: RemoteMachine::generate_default_id(user, host, port),
            tmpdir: TmpdirSlot { path: None, owner: true },
            ssh: SshConnection::new(user, host, pkey, password, port),
        }
    }

    /// A remote machine registered under an alias.
    pub fn with_alias(alias: &str, user: &str, host: &str, password: Option<String>, pkey: Option<String>, port: u16) -> (r: RemoteMachine)
        ensures
            r.spec_id() == IdView::Custom(alias@),
            r.spec_tmpdir() is None,
            r.spec_owner(),
            r.spec_ssh().spec_target(user@, host@, opt_str_view(password), opt_str_view(pkey), port),
            !r.spec_ssh().spec_connected(),
    {
        RemoteMachine {
            id: RemoteMachine::generate_custom_id(alias),
            tmpdir: TmpdirSlot { path: None, owner: true },
            ssh: SshConnection::new(user, host, pkey, password, port),
        }
    }

    /// The identity made from user, host and port.
    pub fn generate_default_id(user: &str, host: &str, port: u16) -> (r: MachineID)
        ensures
            r@ == IdView::Default(Some(user@), Some(host@), Some(port)),
    {
        MachineID::Default(Some(user.to_string()), Some(host.to_string()), Some(port))
    }

    /// The identity made from an alias.
    pub fn generate_custom_id(alias: &str) -> (r: MachineID)
        ensures
            r@ == IdView::Custom(alias@),
    {
        MachineID::Custom(alias.to_string())
    }

    pub fn get_id(&self) -> (r: &MachineID)
        ensures
            r@ == self.spec_id(),
    {
        &self.id
    }

    pub fn mtype(&self) -> (r: MachineType)
        ensures
            r == MachineType::RemoteMachine,
    {
        MachineType::RemoteMachine
    }

    pub fn get_ssh(&self) -> (r: &SshConnection)
        ensures
            *r == self.spec_ssh(),
    {
        &self.ssh
    }

    /// The connection, to advance its state.
    pub fn ssh_mut(&mut self) -> (r: &mut SshConnection)
        ensures
            *r == old(self).spec_ssh(),
            final(self).spec_ssh() == *final(r),
            final(self).spec_id() == old(self).spec_id(),
            final(self).spec_tmpdir() == old(self).spec_tmpdir(),
            final(self).spec_owner() == old(self).spec_owner(),
    {
        &mut self.ssh
    }

    pub fn can_be_removed(&self) -> (r: bool)
        ensures
            r == self.spec_owner(),
    {
        self.tmpdir.owner
    }

    pub fn tmpdir_exists(&self) -> (r: bool)
        ensures
            r == self.spec_tmpdir().is_some(),
    {
        self.tmpdir.path.is_some()
    }

    pub fn get_tmpdir(&self) -> (r: &str)
        requires
            self.spec_tmpdir().is_some(),
        ensures
            Some(r@) == self.spec_tmpdir(),
    {
        self.tmpdir.path.as_ref().unwrap().as_str()
    }

    /// The directory that making a temporary directory stands for: the
    /// existing one, else the path named by `token` under the scratch
    /// location (a random token, from `fresh_token`, keeps it unique).
    pub fn create_tmpdir(&self, token: u128) -> (r: TmpdirPlan)
        ensures
            match (self.spec_tmpdir(), r) {
                (Some(p), TmpdirPlan::Existing(q)) => q@ == p,
                (None, TmpdirPlan::Create(q)) => q@ == tmpdir_path(token),
                _ => false,
            },
    {
        self.tmpdir.plan(token)
    }

    pub fn set_tmpdir(&mut self, path: String)
        requires
            old(self).spec_tmpdir() is None,
        ensures
            final(self).spec_tmpdir() == Some(path@),
            final(self).spec_id() == old(self).spec_id(),
            final(self).spec_owner() == old(self).spec_owner(),
            final(self).spec_ssh() == old(self).spec_ssh(),
    {
        self.tmpdir.path = Some(path);
    }

    pub fn create_tmpdir_content(&self, filename: &str) -> (r: Result<String, CrustError>)
        ensures
            match self.spec_tmpdir() {
                Some(p) => r matches Ok(q) && q@ == crate::scp::child_path(p, filename@),
                None => r matches Err(e) && e.code == ExitCode::Remote && e.message@ == tmpfile_message(),
            },
    {
        self.tmpdir.content(filename, ExitCode::Remote)
    }

    pub fn removal_target(&self) -> (r: Option<String>)
        ensures
            opt_str_view(r) == spec_removal(self.spec_owner(), self.spec_tmpdir()),
    {
        self.tmpdir.removal_target()
    }
}

impl Clone for RemoteMachine {
    /// A copy that shares the temporary directory and connection parameters
    /// but never deletes the directory.
    fn clone(&self) -> (r: RemoteMachine)
        ensures
            r.spec_id() == self.spec_id(),
            r.spec_tmpdir() == self.spec_tmpdir(),
            !r.spec_owner(),
            r.spec_ssh().spec_args() == self.spec_ssh().spec_args(),
    {
        RemoteMachine {
            id: self.id.clone(),
            tmpdir: TmpdirSlot { path: opt_string_clone(&self.tmpdir.path), owner: false },
            ssh: self.ssh.clone(),
        }
    }
}

} // verus!
