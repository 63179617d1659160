use crust::connection::ConnectionArgsTo;
use crust::exec::{join_words, merged_command, ExecArgs, Operation};
use crust::text::{count_occurrences, decimal_string, find_char, parse_u64};

#[test]
fn command_words_are_joined_by_spaces() {
    let args = ExecArgs {
        cmd: Some(vec!["echo".to_string(), "'test'".to_string()]),
        remote: None,
        rt: false,
        merge: false,
    };
    assert_eq!(args.command_line(), "echo 'test'");
    assert_eq!(join_words(&vec!["pwd".to_string()]), "pwd");
    assert_eq!(join_words(&Vec::new()), "");
    assert!(args.validate().is_ok());
    assert!(Operation::Exec(args).validate().is_ok());
}

#[test]
fn merged_streams_redirect_errors() {
    assert_eq!(merged_command("./run.sh"), "./run.sh 2>&1");
}

#[test]
fn exec_with_invalid_remote_is_refused() {
    let args = ExecArgs {
        cmd: Some(vec!["whoami".to_string()]),
        remote: Some(ConnectionArgsTo {
            addr_to: Some("test_user@10.10.10.10".to_string()),
            port_to: Some(22),
            password_to: None,
            pkey_to: None,
            alias_to: None,
        }),
        rt: false,
        merge: false,
    };
    let e = Operation::Exec(args).validate().unwrap_err();
    assert_eq!(e.message, "Neither password nor pkey provided");
}

#[test]
fn numbers_read_and_written_in_decimal() {
    assert_eq!(parse_u64("0"), Some(0));
    assert_eq!(parse_u64("+12"), Some(12));
    assert_eq!(parse_u64("18446744073709551615"), Some(u64::MAX));
    assert_eq!(parse_u64("18446744073709551616"), None);
    assert_eq!(parse_u64(""), None);
    assert_eq!(parse_u64("+"), None);
    assert_eq!(parse_u64("1a"), None);
    assert_eq!(decimal_string(0), "0");
    assert_eq!(decimal_string(1234567890), "1234567890");
    assert_eq!(decimal_string(u128::MAX), u128::MAX.to_string());
    assert_eq!(count_occurrences("a:b:c", ':'), 2);
    assert_eq!(find_char("ab@c", '@'), Some(2));
    assert_eq!(find_char("abc", '@'), None);
}
