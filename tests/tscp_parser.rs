use crust::tscp::{TscpArgs, ValidatedArgs};

#[test]
fn test_str_to_size() {
    assert_eq!(ValidatedArgs::str_to_usize("5M").ok().unwrap(), 5242880);
    assert_eq!(ValidatedArgs::str_to_usize("100G").ok().unwrap(), 107374182400);
    assert_eq!(ValidatedArgs::str_to_usize("70k").ok().unwrap(), 71680);
    assert_eq!(ValidatedArgs::str_to_usize("1K").ok().unwrap(), 1024);
    assert_eq!(
        ValidatedArgs::str_to_usize("10T").err().unwrap().message,
        "Unknown numeric sign"
    );
    assert_eq!(
        ValidatedArgs::str_to_usize("-2M").err().unwrap().message,
        "Could not parse chunk size number part to u64"
    );
    assert_eq!(
        ValidatedArgs::str_to_usize("test").err().unwrap().message,
        "Could not parse chunk size number part to u64"
    );
    assert_eq!(
        ValidatedArgs::str_to_usize("0k").err().unwrap().message,
        "Int part of chunk size is <= 0"
    );
}

#[test]
fn test_is_local_machine() {
    assert_eq!(ValidatedArgs::is_local("user@host:path"), false);
    assert_eq!(ValidatedArgs::is_local(":path"), false);

    assert_eq!(ValidatedArgs::is_local("path"), true);
}

#[test]
fn test_unpack_address_correct() {
    assert_eq!(
        ValidatedArgs::unpack_address("path").unwrap(),
        (None, None, String::from("path"))
    );
    assert_eq!(
        ValidatedArgs::unpack_address("user@host:path").unwrap(),
        (
            Some(String::from("user")),
            Some(String::from("host")),
            String::from("path")
        )
    );
}

fn args(src: &str, dst: &str, chunk_size: Option<&str>, threads: Option<u16>) -> TscpArgs {
    TscpArgs {
        src: String::from(src),
        dst: String::from(dst),
        port: 22,
        chunk_size: chunk_size.map(String::from),
        threads,
        verbose: false,
        password: None,
        pkey: None,
    }
}

#[test]
fn test_validation_local_hosts() {
    let args = args("local", "local", None, None);
    let result = ValidatedArgs::validate(&args).err().unwrap();

    assert_eq!(result.message, "Passed two local servers");
}

#[test]
fn test_validation_remote_hosts() {
    let args = args(":remote", ":remote", None, None);
    let result = ValidatedArgs::validate(&args).err().unwrap();

    assert_eq!(result.message, "Passed two remote servers");
}

#[test]
fn test_validation_neither_size_threads() {
    let args = args("local", ":remote", None, None);
    let result = ValidatedArgs::validate(&args).err().unwrap();

    assert_eq!(result.message, "Neither threads nor chunks provided");
}

#[test]
fn test_validation_both_size_threads() {
    let args = args("local", ":remote", Some("5M"), Some(5));
    let result = ValidatedArgs::validate(&args).err().unwrap();

    assert_eq!(result.message, "Both threads and chunks entered");
}

#[test]
fn test_validation_neither_pkey_password() {
    let args = args("local", ":remote", Some("5M"), None);
    let result = ValidatedArgs::validate(&args).err().unwrap();

    assert_eq!(result.message, "Neither password nor pkey provided");
}

#[test]
fn validation_rejects_extra_colons_and_zero_threads() {
    let result = ValidatedArgs::validate(&args("local", "u@h:a:b", None, Some(2))).err().unwrap();
    assert_eq!(result.message, "Invalid colon amount in remote address");
    let result = ValidatedArgs::validate(&args("local", "u@h:a", None, Some(0))).err().unwrap();
    assert_eq!(result.message, "Thread number can not be equal to 0");
}

#[test]
fn sizes_in_other_cases_and_edges() {
    assert_eq!(ValidatedArgs::str_to_usize("2m").unwrap(), 2 * 1024 * 1024);
    assert_eq!(ValidatedArgs::str_to_usize("3g").unwrap(), 3 * 1024 * 1024 * 1024);
    assert_eq!(ValidatedArgs::str_to_usize("+4k").unwrap(), 4096);
    assert_eq!(
        ValidatedArgs::str_to_usize("").err().unwrap().message,
        "Could not parse chunk size number part to u64"
    );
    assert_eq!(
        ValidatedArgs::str_to_usize("k").err().unwrap().message,
        "Could not parse chunk size number part to u64"
    );
    assert_eq!(
        ValidatedArgs::str_to_usize("17179869184k").err().unwrap().message,
        "Overflowed integer part of chunk size"
    );
    assert_eq!(
        ValidatedArgs::str_to_usize("17179869183G").unwrap(),
        17179869183u64 * 1024 * 1024 * 1024
    );
}

#[test]
fn bad_remote_addresses() {
    for bad in ["host:path", "@host:path", "user@:path", "a@b@c:path"] {
        let e = ValidatedArgs::unpack_address(bad).err().unwrap();
        assert_eq!(e.message, "For remote server, provide address as <user>@<host>:<path>");
    }
    assert_eq!(ValidatedArgs::get_path("u@h:/a/b"), "/a/b");
    assert_eq!(ValidatedArgs::get_path("/a/b"), "/a/b");
}

#[test]
fn validated_args_carry_parsed_values() {
    let mut raw = args("/data/file", "user@host:/remote/file", Some("70k"), None);
    raw.password = Some("pw".to_string());
    let v = ValidatedArgs::validate_and_create(raw).unwrap();
    assert_eq!(v.src_path, "/data/file");
    assert_eq!(v.src_username, None);
    assert_eq!(v.dst_username, Some("user".to_string()));
    assert_eq!(v.dst_hostname, Some("host".to_string()));
    assert_eq!(v.dst_path, "/remote/file");
    assert_eq!(v.chunk_size, Some(71680));
    assert_eq!(v.get_split_size(1_000_000), 71680);
}

#[test]
fn split_size_from_threads_rounds_up() {
    let mut raw = args("/data/file", "user@host:/remote/file", None, Some(4));
    raw.pkey = Some("key".to_string());
    let v = ValidatedArgs::validate_and_create(raw).unwrap();
    assert_eq!(v.get_split_size(10 * 1024 * 1024), 2621440);
    assert_eq!(v.get_split_size(10), 3);
    assert_eq!(v.get_split_size(8), 2);
    assert_eq!(v.get_split_size(0), 0);
}

#[test]
fn create_reports_address_and_size_errors() {
    let mut raw = args("/data/file", "user@:/remote/file", Some("5M"), None);
    raw.password = Some("pw".to_string());
    let e = ValidatedArgs::validate_and_create(raw).err().unwrap();
    assert_eq!(e.message, "For remote server, provide address as <user>@<host>:<path>");

    let mut raw = args("/data/file", "user@host:/remote/file", Some("5T"), None);
    raw.password = Some("pw".to_string());
    let e = ValidatedArgs::validate_and_create(raw).err().unwrap();
    assert_eq!(e.message, "Unknown numeric sign");
}
