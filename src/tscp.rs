use crate::error::{CrustError, ExitCode};
use crate::text::{
    after_first, before_first, count_char, count_occurrences, has_char, parse_u64, parsed_u64,
    prefix_before, split_once_char,
};
use vstd::prelude::*;

verus! {

/// Arguments of a chunked copy: two addresses, one of them remote
/// (`<user>@<host>:<path>`), and either a chunk size or a thread count.
#[derive(Clone, Debug)]
pub struct TscpArgs {
    pub src: String,
    pub dst: String,
    pub port: u16,
    pub chunk_size: Option<String>,
    pub threads: Option<u16>,
    pub verbose: bool,
    pub password: Option<String>,
    pub pkey: Option<String>,
}

/// A chunked copy whose arguments were checked and taken apart.
#[derive(Debug)]
pub struct ValidatedArgs {
    pub src_path: String,
    pub dst_path: String,
    pub src_hostname: Option<String>,
    pub dst_hostname: Option<String>,
    pub src_username: Option<String>,
    pub dst_username: Option<String>,
    pub port: u16,
    pub password: Option<String>,
    pub pkey: Option<String>,
    pub threads: Option<u16>,
    pub chunk_size: Option<u64>,
    pub verbose: bool,
}

/// Bytes in a gibibyte.
pub const GIB: u64 = 1073741824;

pub open spec fn kib() -> nat {
    1024
}

/// The first rule that the arguments break, as its message.
pub open spec fn tscp_violation(src: Seq<char>, dst: Seq<char>, chunk_size: bool, threads: Option<u16>, password: bool, pkey: bool) -> Option<Seq<char>> {
    if !has_char(src, ':') && !has_char(dst, ':') {
        Some("Passed two local servers"@)
    } else if has_char(src, ':') && has_char(dst, ':') {
        Some("Passed two remote servers"@)
    } else if count_char(src, ':') > 1 || count_char(dst, ':') > 1 {
        Some("Invalid colon amount in remote address"@)
    } else if !chunk_size && threads.is_none() {
        Some("Neither threads nor chunks provided"@)
    } else if chunk_size && threads.is_some() {
        Some("Both threads and chunks entered"@)
    } else if threads == Some(0u16) {
        Some("Thread number can not be equal to 0"@)
    } else if !password && !pkey {
        Some("Neither password nor pkey provided"@)
    } else {
        None
    }
}

pub open spec fn args_violation(data: TscpArgs) -> Option<Seq<char>> {
    tscp_violation(data.src@, data.dst@, data.chunk_size.is_some(), data.threads, data.password.is_some(), data.pkey.is_some())
}

/// A human-readable size (`70k`, `5M`, `100G`) in bytes, or the message that
/// refuses it.
pub open spec fn spec_chunk_size(s: Seq<char>) -> Result<u64, Seq<char>> {
    if s.len() == 0 {
        Err("Could not parse chunk size number part to u64"@)
    } else {
        let unit = s.last();
        match parsed_u64(s.drop_last()) {
            None => Err("Could not parse chunk size number part to u64"@),
            Some(n) => if n == 0 {
                Err("Int part of chunk size is <= 0"@)
            } else if n * kib() * kib() * kib() > u64::MAX {
                Err("Overflowed integer part of chunk size"@)
            } else if unit == 'k' || unit == 'K' {
                Ok((n * kib()) as u64)
            } else if unit == 'm' || unit == 'M' {
                Ok((n * kib() * kib()) as u64)
            } else if unit == 'g' || unit == 'G' {
                Ok((n * kib() * kib() * kib()) as u64)
            } else {
                Err("Unknown numeric sign"@)
            },
        }
    }
}

/// The user and host of a remote address `<user>@<host>:<path>`: the part
/// before the first colon must hold exactly one `@`, with text on both sides.
pub open spec fn spec_user_host(address: Seq<char>) -> Option<(Seq<char>, Seq<char>)> {
    let addr = before_first(address, ':');
    let user = before_first(addr, '@');
    let host = after_first(addr, '@');
    if count_char(addr, '@') == 1 && user.len() > 0 && host.len() > 0 {
        Some((user, host))
    } else {
        None
    }
}

/// The path part of an address: all of it for a local one, else what follows
/// the first colon.
pub open spec fn spec_path(address: Seq<char>) -> Seq<char> {
    if has_char(address, ':') {
        after_first(address, ':')
    } else {
        address
    }
}

pub open spec fn opt_view(o: Option<String>) -> Option<Seq<char>> {
    match o {
        Some(s) => Some(s@),
        None => None,
    }
}

/// What an address unpacks to: no user and host for a local one.
pub open spec fn spec_unpacked(address: Seq<char>) -> Option<(Option<Seq<char>>, Option<Seq<char>>, Seq<char>)> {
    if !has_char(address, ':') {
        Some((None, None, address))
    } else {
        match spec_user_host(address) {
            Some((u, h)) => Some((Some(u), Some(h), spec_path(address))),
            None => None,
        }
    }
}

/// The message of the first check that the arguments of a chunked copy
/// fail: the rules, then both addresses, then the chunk size.
pub open spec fn create_error(raw: TscpArgs) -> Option<Seq<char>> {
    match args_violation(raw) {
        Some(m) => Some(m),
        None => if spec_unpacked(raw.src@) is None || spec_unpacked(raw.dst@) is None {
            Some(address_message())
        } else {
            match raw.chunk_size {
                Some(c) => match spec_chunk_size(c@) {
                    Err(m) => Some(m),
                    Ok(_) => None,
                },
                None => None,
            }
        },
    }
}

pub open spec fn address_message() -> Seq<char> {
    "For remote server, provide address as <user>@<host>:<path>"@
}

fn parser_error(message: &str) -> (e: CrustError)
    ensures
        e.code == ExitCode::Parser,
        e.message@ == message@,
{
    CrustError::new(ExitCode::Parser, message.to_string())
}

fn clone_opt(o: &Option<String>) -> (r: Option<String>)
    ensures
        opt_view(r) == opt_view(*o),
{
    match o {
        Some(s) => Some(s.clone()),
        None => None,
    }
}

impl ValidatedArgs {
    /// Checks the arguments, then takes both addresses apart and reads the
    /// chunk size.
    pub fn validate_and_create(raw_args: TscpArgs) -> (r: Result<ValidatedArgs, CrustError>)
        ensures
            r.is_ok() <==> create_error(raw_args) is None,
            r matches Ok(v) ==> {
                &&& spec_unpacked(raw_args.src@) == Some((opt_view(v.src_username), opt_view(v.src_hostname), v.src_path@))
                &&& spec_unpacked(raw_args.dst@) == Some((opt_view(v.dst_username), opt_view(v.dst_hostname), v.dst_path@))
                &&& v.chunk_size == match raw_args.chunk_size {
                    Some(c) => Some(spec_chunk_size(c@)->Ok_0),
                    None => None,
                }
                &&& v.port == raw_args.port && v.threads == raw_args.threads
                &&& v.verbose == raw_args.verbose
                &&& opt_view(v.password) == opt_view(raw_args.password)
                &&& opt_view(v.pkey) == opt_view(raw_args.pkey)
            },
            r matches Err(e) ==> e.code == ExitCode::Parser && Some(e.message@) == create_error(raw_args),
    {
        ValidatedArgs::validate(&raw_args)?;
        let (src_username, src_hostname, src_path) = ValidatedArgs::unpack_address(raw_args.src.as_str())?;
        let (dst_username, dst_hostname, dst_path) = ValidatedArgs::unpack_address(raw_args.dst.as_str())?;
        let chunk_size = match &raw_args.chunk_size {
            Some(val) => Some(ValidatedArgs::str_to_usize(val.as_str())?),
            None => None,
        };
        Ok(ValidatedArgs {
            src_path,
            dst_path,
            src_hostname,
            dst_hostname,
            src_username,
            dst_username,
            port: raw_args.port,
            password: raw_args.password,
            pkey: raw_args.pkey,
            threads: raw_args.threads,
            chunk_size,
            verbose: raw_args.verbose,
        })
    }

    /// Size of each chunk: the one given, else the total divided among the
    /// threads and rounded up, so that the chunks cover every byte.
    pub fn get_split_size(&self, total_size: u64) -> (r: u64)
        requires
            self.chunk_size.is_some() || (self.threads matches Some(t) && t > 0),
        ensures
            self.chunk_size matches Some(v) ==> r == v,
            self.chunk_size is None ==> r as int == ceil_div(total_size as int, self.threads->Some_0 as int),
    {
        match self.chunk_size {
            Some(v) => v,
            None => {
                let threads = self.threads.unwrap() as u64;
                crate::chunks::chunk_size_for(total_size, threads)
            },
        }
    }

    /// Checks the rules in order and reports the first one broken.
    pub fn validate(data: &TscpArgs) -> (r: Result<(), CrustError>)
        ensures
            r.is_ok() <==> args_violation(*data) is None,
            r matches Err(e) ==> e.code == ExitCode::Parser && Some(e.message@) == args_violation(*data),
    {
        let src_remote = !ValidatedArgs::is_local(data.src.as_str());
        let dst_remote = !ValidatedArgs::is_local(data.dst.as_str());
        if !src_remote && !dst_remote {
            return Err(parser_error("Passed two local servers"));
        }
        if src_remote && dst_remote {
            return Err(parser_error("Passed two remote servers"));
        }
        if count_occurrences(data.src.as_str(), ':') > 1 || count_occurrences(data.dst.as_str(), ':') > 1 {
            return Err(parser_error("Invalid colon amount in remote address"));
        }
        if data.chunk_size.is_none() && data.threads.is_none() {
            return Err(parser_error("Neither threads nor chunks provided"));
        }
        if data.chunk_size.is_some() && data.threads.is_some() {
            return Err(parser_error("Both threads and chunks entered"));
        }
        if data.threads == Some(0u16) {
            return Err(parser_error("Thread number can not be equal to 0"));
        }
        if data.password.is_none() && data.pkey.is_none() {
            return Err(parser_error("Neither password nor pkey provided"));
        }
        Ok(())
    }

    /// Reads a human-readable size: a positive number followed by one unit
    /// letter, `k`/`K` for KiB, `M` for MiB, `G` for GiB (either case).
    pub fn str_to_usize(size_str: &str) -> (r: Result<u64, CrustError>)
        ensures
            match spec_chunk_size(size_str@) {
                Ok(v) => r == Ok::<u64, CrustError>(v),
                Err(m) => r matches Err(e) && e.code == ExitCode::Parser && e.message@ == m,
            },
    {
        let n = size_str.unicode_len();
        if n == 0 {
            return Err(parser_error("Could not parse chunk size number part to u64"));
        }
        let numeric_part = size_str.substring_char(0, n - 1);
        let unit = size_str.get_char(n - 1);
        assert(numeric_part@ =~= size_str@.drop_last());
        let num = match parse_u64(numeric_part) {
            Some(v) => v,
            None => {
                return Err(parser_error("Could not parse chunk size number part to u64"));
            },
        };
        if num == 0 {
            return Err(parser_error("Int part of chunk size is <= 0"));
        }
        if num > u64::MAX / GIB {
            assert(num * kib() * kib() * kib() > u64::MAX) by (nonlinear_arith)
                requires num > u64::MAX / GIB, kib() == 1024, GIB == 1073741824;
            return Err(parser_error("Overflowed integer part of chunk size"));
        }
        assert(num * kib() * kib() * kib() <= u64::MAX) by (nonlinear_arith)
            requires num <= u64::MAX / GIB, kib() == 1024, GIB == 1073741824;
        if unit == 'k' || unit == 'K' {
            Ok(num * 1024)
        } else if unit == 'm' || unit == 'M' {
            Ok(num * 1024 * 1024)
        } else if unit == 'g' || unit == 'G' {
            Ok(num * 1024 * 1024 * 1024)
        } else {
            Err(parser_error("Unknown numeric sign"))
        }
    }

    /// The user and host of a remote address.
    pub fn get_user_host(address: &str) -> (r: Result<(String, String), CrustError>)
        ensures
            match spec_user_host(address@) {
                Some((u, h)) => r matches Ok((ru, rh)) && ru@ == u && rh@ == h,
                None => r matches Err(e) && e.code == ExitCode::Parser && e.message@ == address_message(),
            },
    {
        let addr = prefix_before(address, ':');
        if count_occurrences(addr, '@') != 1 {
            return Err(parser_error("For remote server, provide address as <user>@<host>:<path>"));
        }
        match split_once_char(addr, '@') {
            Some((user, host)) => {
                if user.unicode_len() == 0 || host.unicode_len() == 0 {
                    return Err(parser_error("For remote server, provide address as <user>@<host>:<path>"));
                }
                Ok((user.to_string(), host.to_string()))
            },
            None => {
                proof {
                    let a = addr@;
                    assert(count_char(a, '@') == 1);
                    crate::text::lemma_count_zero(a, '@');
                }
                Err(parser_error("For remote server, provide address as <user>@<host>:<path>"))
            },
        }
    }

    /// An address names the local machine when it holds no colon.
    pub fn is_local(server: &str) -> (r: bool)
        ensures
            r == !has_char(server@, ':'),
    {
        split_once_char(server, ':').is_none()
    }

    /// Takes an address apart: `(None, None, path)` for a local one,
    /// `(Some(user), Some(host), path)` for a remote one.
    pub fn unpack_address(address: &str) -> (r: Result<(Option<String>, Option<String>, String), CrustError>)
        ensures
            match spec_unpacked(address@) {
                Some((u, h, p)) => r matches Ok((ru, rh, rp)) && opt_view(ru) == u && opt_view(rh) == h && rp@ == p,
                None => r matches Err(e) && e.code == ExitCode::Parser && e.message@ == address_message(),
            },
    {
        let path = ValidatedArgs::get_path(address);
        if ValidatedArgs::is_local(address) {
            Ok((None, None, path))
        } else {
            let (user, host) = ValidatedArgs::get_user_host(address)?;
            Ok((Some(user), Some(host), path))
        }
    }

    /// The path part of an address.
    pub fn get_path(address: &str) -> (r: String)
        ensures
            r@ == spec_path(address@),
    {
        match split_once_char(address, ':') {
            Some((_, path)) => path.to_string(),
            None => address.to_string(),
        }
    }
}

/// `a / b` rounded up.
pub open spec fn ceil_div(a: int, b: int) -> int {
    (a + b - 1) / b
}

pub proof fn lemma_ceil_div(a: int, b: int)
    requires
        a >= 0,
        b > 0,
    ensures
        a % b == 0 ==> ceil_div(a, b) == a / b,
        a % b != 0 ==> ceil_div(a, b) == a / b + 1,
        a / b * b <= a,
        a % b != 0 ==> a / b < a,
        ceil_div(a, b) * b >= a,
        ceil_div(a, b) >= 0,
{
    assert(a == (a / b) * b + a % b) by (nonlinear_arith) requires b > 0;
    assert(0 <= a % b < b) by (nonlinear_arith) requires b > 0;
    let q = a / b;
    let m = a % b;
    if m == 0 {
        assert((a + b - 1) / b == q) by (nonlinear_arith) requires a == q * b, b > 0;
        assert(q * b >= a);
    } else {
        assert((q + 1) * b >= a) by (nonlinear_arith) requires a == q * b + m, 0 < m < b;
        assert((a + b - 1) / b == q + 1) by (nonlinear_arith) requires a == q * b + m, 0 < m < b, b > 0;
        assert(q < a) by (nonlinear_arith) requires a == q * b + m, 0 < m < b, b > 0, q >= 0;
    }
    assert(q >= 0) by (nonlinear_arith) requires a >= 0, b > 0, q == a / b;
}

} // verus!
