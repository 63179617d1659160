use crate::error::{CrustError, ExitCode};
use crate::machine::opt_str_view;
use crate::text::{after_first, before_first, count_char, count_occurrences, split_once_char};
use vstd::prelude::*;

verus! {

/// What it takes to reach a remote machine.
#[derive(Debug)]
pub struct ConnectArgs {
    pub username: String,
    pub hostname: String,
    pub private_key: Option<String>,
    pub password: Option<String>,
    pub port: u16,
}

pub struct ArgsView {
    pub username: Seq<char>,
    pub hostname: Seq<char>,
    pub private_key: Option<Seq<char>>,
    pub password: Option<Seq<char>>,
    pub port: u16,
}

impl View for ConnectArgs {
    type V = ArgsView;

    open spec fn view(&self) -> ArgsView {
        ArgsView {
            username: self.username@,
            hostname: self.hostname@,
            private_key: opt_str_view(self.private_key),
            password: opt_str_view(self.password),
            port: self.port,
        }
    }
}

fn clone_opt(o: &Option<String>) -> (r: Option<String>)
    ensures
        opt_str_view(r) == opt_str_view(*o),
{
    match o {
        Some(s) => Some(s.clone()),
        None => None,
    }
}

impl Clone for ConnectArgs {
    fn clone(&self) -> (r: ConnectArgs)
        ensures
            r@ == self@,
    {
        ConnectArgs {
            username: self.username.clone(),
            hostname: self.hostname.clone(),
            private_key: clone_opt(&self.private_key),
            password: clone_opt(&self.password),
            port: self.port,
        }
    }
}

/// How a session proves who it is: a password is preferred to a key file.
pub enum AuthMethod {
    Password { username: String, password: String },
    PublicKey { username: String, key_path: String },
}

/// What a connection asks its driver to do next.
pub enum ConnectStep {
    /// The session is up: nothing more to do.
    Ready,
    /// Open a network stream to the host.
    OpenStream { hostname: String, port: u16 },
    /// Perform the session handshake on the stream.
    Handshake,
    /// Authenticate the session.
    Authenticate(AuthMethod),
    /// Give up with this error.
    Fail(CrustError),
}

/// What the driver reports back.
pub enum ConnectEvent {
    /// A connection is requested.
    Begin,
    StreamOpened,
    HandshakeDone,
    /// Authentication ran; whether the server accepted it.
    AuthFinished { authenticated: bool },
    /// The requested step failed.
    Failed(CrustError),
}

pub open spec fn no_args_message() -> Seq<char> {
    "Did not define connection arguments for session"@
}

pub open spec fn no_auth_message() -> Seq<char> {
    "Did not provide authorization. Neither password nor private key"@
}

pub open spec fn auth_failed_message() -> Seq<char> {
    "Authentication failed"@
}

/// An SSH connection to one machine: the parameters, and whether a session
/// is established. It is made unconnected and connects lazily.
#[derive(Debug)]
pub struct SshConnection {
    pub connect_args: Option<ConnectArgs>,
    connected: bool,
}

pub open spec fn is_ssh_error(e: CrustError, m: Seq<char>) -> bool {
    e.code == ExitCode::Ssh && e.message@ == m
}

impl SshConnection {
    pub closed spec fn spec_args(&self) -> Option<ArgsView> {
        match self.connect_args {
            Some(a) => Some(a@),
            None => None,
        }
    }

    pub closed spec fn spec_connected(&self) -> bool {
        self.connected
    }

    pub open spec fn spec_target(&self, user: Seq<char>, host: Seq<char>, password: Option<Seq<char>>, pkey: Option<Seq<char>>, port: u16) -> bool {
        self.spec_args() == Some(ArgsView { username: user, hostname: host, private_key: pkey, password, port })
    }

    pub fn new(username: &str, hostname: &str, private_key: Option<String>, password: Option<String>, port: u16) -> (r: SshConnection)
        ensures
            r.spec_target(username@, hostname@, opt_str_view(password), opt_str_view(private_key), port),
            !r.spec_connected(),
    {
        SshConnection {
            connect_args: Some(
                ConnectArgs {
                    username: username.to_string(),
                    hostname: hostname.to_string(),
                    private_key,
                    password,
                    port,
                },
            ),
            connected: false,
        }
    }

    /// A connection that knows no machine: it cannot connect.
    pub fn without_args() -> (r: SshConnection)
        ensures
            r.spec_args() is None,
            !r.spec_connected(),
    {
        SshConnection { connect_args: None, connected: false }
    }

    /// Whether a session is established, as last known.
    pub fn is_connected(&self) -> (r: bool)
        ensures
            r == self.spec_connected(),
    {
        self.connected
    }

    /// Takes in a liveness probe of the session: a dropped session counts
    /// as not connected.
    pub fn record_probe(&mut self, alive: bool)
        ensures
            final(self).spec_connected() == (old(self).spec_connected() && alive),
            final(self).spec_args() == old(self).spec_args(),
    {
        self.connected = self.connected && alive;
    }

    /// `<user>@<host>`.
    pub fn ssh_address(&self) -> (r: String)
        requires
            self.spec_args() is Some,
        ensures
            r@ == self.spec_args()->Some_0.username + "@"@ + self.spec_args()->Some_0.hostname,
    {
        let a = self.connect_args.as_ref().unwrap();
        a.username.clone().concat("@").concat(a.hostname.as_str())
    }

    /// The way to authenticate: by password where one is given, else by the
    /// key file, else an error.
    pub fn auth_method(&self) -> (r: Result<AuthMethod, CrustError>)
        requires
            self.spec_args() is Some,
        ensures
            ({
                let a = self.spec_args()->Some_0;
                match (a.password, a.private_key) {
                    (Some(p), _) => r matches Ok(AuthMethod::Password { username, password })
                        && username@ == a.username && password@ == p,
                    (None, Some(k)) => r matches Ok(AuthMethod::PublicKey { username, key_path })
                        && username@ == a.username && key_path@ == k,
                    (None, None) => r matches Err(e) && is_ssh_error(e, no_auth_message()),
                }
            }),
    {
        let a = self.connect_args.as_ref().unwrap();
        match (&a.password, &a.private_key) {
            (Some(p), _) => Ok(AuthMethod::Password { username: a.username.clone(), password: p.clone() }),
            (None, Some(k)) => Ok(AuthMethod::PublicKey { username: a.username.clone(), key_path: k.clone() }),
            (None, None) => Err(
                CrustError::new(
                    ExitCode::Ssh,
                    "Did not provide authorization. Neither password nor private key".to_string(),
                ),
            ),
        }
    }

    /// One step of connecting. A request on a live session is done at once;
    /// otherwise the stream is opened and the handshake made before the
    /// authentication method is chosen, and the session counts as connected
    /// only once the server accepted it. Nothing is retried.
    pub fn connect_step(&mut self, event: ConnectEvent) -> (r: ConnectStep)
        ensures
            final(self).spec_args() == old(self).spec_args(),
            final(self).spec_connected() == (old(self).spec_connected()
                || (event matches ConnectEvent::AuthFinished { authenticated } && authenticated)),
            match event {
                ConnectEvent::Begin => if old(self).spec_connected() {
                    r is Ready
                } else {
                    match old(self).spec_args() {
                        None => r matches ConnectStep::Fail(e) && is_ssh_error(e, no_args_message()),
                        Some(a) => r matches ConnectStep::OpenStream { hostname, port }
                            && hostname@ == a.hostname && port == a.port,
                    }
                },
                ConnectEvent::StreamOpened => r is Handshake,
                ConnectEvent::HandshakeDone => match old(self).spec_args() {
                    None => r matches ConnectStep::Fail(e) && is_ssh_error(e, no_args_message()),
                    Some(a) => match (a.password, a.private_key) {
                        (Some(p), _) => r matches ConnectStep::Authenticate(AuthMethod::Password { username, password })
                            && username@ == a.username && password@ == p,
                        (None, Some(k)) => r matches ConnectStep::Authenticate(AuthMethod::PublicKey { username, key_path })
                            && username@ == a.username && key_path@ == k,
                        (None, None) => r matches ConnectStep::Fail(e) && is_ssh_error(e, no_auth_message()),
                    },
                },
                ConnectEvent::AuthFinished { authenticated } => if authenticated {
                    r is Ready
                } else {
                    r matches ConnectStep::Fail(e) && is_ssh_error(e, auth_failed_message())
                },
                ConnectEvent::Failed(e) => r == ConnectStep::Fail(e),
            },
    {
        match event {
            ConnectEvent::Begin => {
                if self.connected {
                    return ConnectStep::Ready;
                }
                match &self.connect_args {
                    None => ConnectStep::Fail(
                        CrustError::new(ExitCode::Ssh, "Did not define connection arguments for session".to_string()),
                    ),
                    Some(a) => ConnectStep::OpenStream { hostname: a.hostname.clone(), port: a.port },
                }
            },
            ConnectEvent::StreamOpened => ConnectStep::Handshake,
            ConnectEvent::HandshakeDone => {
                if self.connect_args.is_none() {
                    return ConnectStep::Fail(
                        CrustError::new(ExitCode::Ssh, "Did not define connection arguments for session".to_string()),
                    );
                }
                match self.auth_method() {
                    Ok(m) => ConnectStep::Authenticate(m),
                    Err(e) => ConnectStep::Fail(e),
                }
            },
            ConnectEvent::AuthFinished { authenticated } => {
                if authenticated {
                    self.connected = true;
                    ConnectStep::Ready
                } else {
                    ConnectStep::Fail(CrustError::new(ExitCode::Ssh, "Authentication failed".to_string()))
                }
            },
            ConnectEvent::Failed(e) => ConnectStep::Fail(e),
        }
    }
}

impl Clone for SshConnection {
    fn clone(&self) -> (r: SshConnection)
        ensures
            r.spec_args() == self.spec_args(),
            r.spec_connected() == self.spec_connected(),
    {
        let connect_args = match &self.connect_args {
            Some(a) => Some(a.clone()),
            None => None,
        };
        SshConnection { connect_args, connected: self.connected }
    }
}

/// A well-formed `<user>@<host>`: exactly one `@`, with text on both sides.
pub open spec fn valid_user_host(a: Seq<char>) -> bool {
    count_char(a, '@') == 1 && before_first(a, '@').len() > 0 && after_first(a, '@').len() > 0
}

pub open spec fn address_pattern_message() -> Seq<char> {
    "Invalid address pattern. Use <user>@<host>"@
}

pub open spec fn no_credentials_message() -> Seq<char> {
    "Neither password nor pkey provided"@
}

pub open spec fn is_parser_error(e: CrustError, m: Seq<char>) -> bool {
    e.code == ExitCode::Parser && e.message@ == m
}

/// Whether `<user>@<host>` is well formed.
pub fn is_valid_user_host(addr: &str) -> (r: bool)
    ensures
        r == valid_user_host(addr@),
{
    if count_occurrences(addr, '@') != 1 {
        return false;
    }
    match split_once_char(addr, '@') {
        Some((u, h)) => u.unicode_len() > 0 && h.unicode_len() > 0,
        None => {
            proof {
                crate::text::lemma_count_zero(addr@, '@');
            }
            false
        },
    }
}

/// Connection options of the target machine of an operation.
#[derive(Debug, Clone)]
pub struct ConnectionArgsTo {
    pub addr_to: Option<String>,
    pub port_to: Option<u16>,
    pub password_to: Option<String>,
    pub pkey_to: Option<String>,
    pub alias_to: Option<String>,
}

/// Connection options of the source machine of a copy.
#[derive(Debug, Clone)]
pub struct ConnectionArgsFrom {
    pub addr_from: Option<String>,
    pub port_from: Option<u16>,
    pub password_from: Option<String>,
    pub pkey_from: Option<String>,
    pub alias_from: Option<String>,
}

pub open spec fn to_violation(a: ConnectionArgsTo) -> Option<Seq<char>> {
    if a.alias_to.is_some() {
        None
    } else if a.password_to.is_none() && a.pkey_to.is_none() {
        Some(no_credentials_message())
    } else if a.addr_to matches Some(addr) && !valid_user_host(addr@) {
        Some(address_pattern_message())
    } else {
        None
    }
}

pub open spec fn from_violation(a: ConnectionArgsFrom) -> Option<Seq<char>> {
    match a.addr_from {
        None => None,
        Some(addr) => if !valid_user_host(addr@) {
            Some(address_pattern_message())
        } else if a.password_from.is_none() && a.pkey_from.is_none() {
            Some(no_credentials_message())
        } else {
            None
        },
    }
}

fn parser_error(message: &str) -> (e: CrustError)
    ensures
        is_parser_error(e, message@),
{
    CrustError::new(ExitCode::Parser, message.to_string())
}

impl ConnectionArgsTo {
    /// An alias is enough; otherwise a password or a key is needed, and an
    /// address must be `<user>@<host>`.
    pub fn validate(&self) -> (r: Result<(), CrustError>)
        ensures
            match to_violation(*self) {
                None => r is Ok,
                Some(m) => r matches Err(e) && is_parser_error(e, m),
            },
    {
        if self.alias_to.is_some() {
            return Ok(());
        }
        if self.password_to.is_none() && self.pkey_to.is_none() {
            return Err(parser_error("Neither password nor pkey provided"));
        }
        if let Some(addr) = &self.addr_to {
            if !is_valid_user_host(addr.as_str()) {
                return Err(parser_error("Invalid address pattern. Use <user>@<host>"));
            }
        }
        Ok(())
    }
}

impl ConnectionArgsFrom {
    /// Where an address is given, it must be `<user>@<host>` and come with a
    /// password or a key.
    pub fn validate(&self) -> (r: Result<(), CrustError>)
        ensures
            match from_violation(*self) {
                None => r is Ok,
                Some(m) => r matches Err(e) && is_parser_error(e, m),
            },
    {
        if let Some(addr) = &self.addr_from {
            if !is_valid_user_host(addr.as_str()) {
                return Err(parser_error("Invalid address pattern. Use <user>@<host>"));
            }
            if self.password_from.is_none() && self.pkey_from.is_none() {
                return Err(parser_error("Neither password nor pkey provided"));
            }
        }
        Ok(())
    }

    /// The same options, in the form that machine lookup takes.
    pub fn as_target(&self) -> (r: ConnectionArgsTo)
        ensures
            opt_str_view(r.addr_to) == opt_str_view(self.addr_from),
            r.port_to == self.port_from,
            opt_str_view(r.password_to) == opt_str_view(self.password_from),
            opt_str_view(r.pkey_to) == opt_str_view(self.pkey_from),
            opt_str_view(r.alias_to) == opt_str_view(self.alias_from),
    {
        ConnectionArgsTo {
            addr_to: clone_opt(&self.addr_from),
            port_to: self.port_from,
            password_to: clone_opt(&self.password_from),
            pkey_to: clone_opt(&self.pkey_from),
            alias_to: clone_opt(&self.alias_from),
        }
    }
}

} // verus!
