use crust::error::ExitCode;
use crust::machine::{fresh_token, tmpdir_path_for, LocalMachine, MachineID, MachineType, RemoteMachine, TmpdirPlan};

fn connect_args() -> (String, String, Option<String>, Option<String>, u16) {
    (
        String::from("test_user"),
        String::from("10.10.10.10"),
        Some(String::from("1234")),
        None,
        22,
    )
}

#[test]
fn test_clone_localmachine() {
    let machine = LocalMachine::new();

    let cloned = machine.clone();

    assert_eq!(machine.get_id(), cloned.get_id());
    assert!(!cloned.can_be_removed());
}

#[test]
fn test_create_content_for_localmachine_tmpdir_doesnt_exist() {
    let machine = LocalMachine::new();

    let result = machine.create_tmpdir_content("abc");
    assert!(result.is_err());

    let err = result.err().unwrap();
    assert_eq!(err.code, ExitCode::Local);
    assert_eq!(
        err.message,
        "You wanted to create tempfile, but you have not created tempdir!"
    );
}

#[test]
fn test_create_default_machine() {
    let machine = LocalMachine::default();

    assert!(!machine.tmpdir_exists());
    assert!(machine.can_be_removed());
    assert_eq!(machine.get_id(), &MachineID::default());
}

#[test]
fn test_create_localmachine_without_manager() {
    let machine = LocalMachine::new();

    assert_eq!(machine.tmpdir_exists(), false);
    assert_eq!(machine.get_id(), &MachineID::new(None, None, None));
    assert_eq!(machine.can_be_removed(), true);
    assert_eq!(machine.mtype(), MachineType::LocalMachine);
}

#[test]
fn test_generate_local_id() {
    assert_eq!(
        LocalMachine::generate_id(),
        MachineID::new(None, None, None)
    )
}

#[test]
fn test_clone_remotemachine() {
    let (user, host, pass, pkey, port) = connect_args();
    let machine = RemoteMachine::new(&user, &host, pass, pkey, port);

    let cloned = machine.clone();

    assert_eq!(machine.get_id(), cloned.get_id());
    assert!(!cloned.can_be_removed());
    assert_eq!(
        machine.get_ssh().ssh_address(),
        cloned.get_ssh().ssh_address()
    )
}

#[test]
fn test_create_content_for_remotemachine_tmpdir_doesnt_exist() {
    let (user, host, pass, pkey, port) = connect_args();
    let machine = RemoteMachine::new(&user, &host, pass, pkey, port);

    let result = machine.create_tmpdir_content("abc");
    assert!(result.is_err());

    let err = result.err().unwrap();
    assert_eq!(err.code, ExitCode::Remote);
    assert_eq!(
        err.message,
        "You wanted to create tempfile, but you have not created tempdir!"
    );
}

#[test]
fn test_create_remotemachine_without_manager() {
    let (user, host, pass, pkey, port) = connect_args();
    let machine = RemoteMachine::new(&user, &host, pass, pkey, port);

    assert_eq!(machine.tmpdir_exists(), false);
    assert_eq!(
        machine.get_id(),
        &MachineID::new(Some(user), Some(host), Some(port))
    );
    assert_eq!(machine.can_be_removed(), true);
    assert_eq!(machine.mtype(), MachineType::RemoteMachine);
}

#[test]
fn test_generate_remote_id() {
    assert_eq!(
        RemoteMachine::generate_default_id("a", "b", 1),
        MachineID::new(Some(String::from("a")), Some(String::from("b")), Some(1))
    )
}

#[test]
fn ids_of_the_same_parameters_are_equal() {
    let a = RemoteMachine::generate_default_id("user", "host", 22);
    let b = RemoteMachine::generate_default_id("user", "host", 22);
    assert_eq!(a, b);
    assert_ne!(a, RemoteMachine::generate_default_id("user", "host", 23));
    assert_ne!(a, RemoteMachine::generate_custom_id("user"));
    assert_eq!(RemoteMachine::generate_custom_id("x"), MachineID::Custom("x".to_string()));
}

#[test]
fn tmpdir_is_planned_under_scratch_then_reused() {
    let mut machine = LocalMachine::new();
    let path = match machine.create_tmpdir(340282366920938463463374607431768211455) {
        TmpdirPlan::Create(p) => p,
        TmpdirPlan::Existing(_) => panic!("no directory was made yet"),
    };
    assert_eq!(path, "/tmp/tmp.340282366920938463463374607431768211455");
    let token = fresh_token();
    assert_eq!(tmpdir_path_for(token), format!("/tmp/tmp.{token}"));

    machine.set_tmpdir(path.clone());
    assert!(machine.tmpdir_exists());
    assert_eq!(machine.get_tmpdir(), path);
    match machine.create_tmpdir(7) {
        TmpdirPlan::Existing(p) => assert_eq!(p, path),
        TmpdirPlan::Create(_) => panic!("the directory exists"),
    }
    assert_eq!(
        machine.create_tmpdir_content("abc").unwrap(),
        format!("{path}/abc")
    );
}

#[test]
fn only_the_owner_deletes_the_tmpdir() {
    let mut machine = LocalMachine::new();
    machine.set_tmpdir("/tmp/tmp.42".to_string());
    let first = machine.clone();
    let second = first.clone();
    assert_eq!(machine.removal_target(), Some("/tmp/tmp.42".to_string()));
    assert_eq!(first.removal_target(), None);
    assert_eq!(second.removal_target(), None);
    assert_eq!(second.get_tmpdir(), "/tmp/tmp.42");

    let plain = LocalMachine::new();
    assert_eq!(plain.removal_target(), None);
}

#[test]
fn clone_that_made_a_tmpdir_does_not_delete_it() {
    let machine = LocalMachine::new();
    let mut cloned = machine.clone();
    cloned.set_tmpdir("/tmp/tmp.7".to_string());
    assert_eq!(cloned.removal_target(), None);
    assert_eq!(machine.removal_target(), None);
}

#[test]
fn identities_are_shown_by_alias_or_hash() {
    assert_eq!(MachineID::Custom("box".to_string()).to_text(), "MachineID<box>");
    let a = RemoteMachine::generate_default_id("a", "b", 1).to_text();
    let b = RemoteMachine::generate_default_id("a", "b", 1).to_text();
    let c = RemoteMachine::generate_default_id("a", "b", 2).to_text();
    assert_eq!(a, b);
    assert_ne!(a, c);
    let digits = a.strip_prefix("MachineID<").unwrap().strip_suffix(">").unwrap();
    assert!(!digits.is_empty() && digits.chars().all(|ch| ch.is_ascii_digit()));
}

#[test]
fn tmpdir_content_joins_as_a_path() {
    let mut machine = LocalMachine::new();
    machine.set_tmpdir("/tmp/tmp.3/".to_string());
    assert_eq!(machine.create_tmpdir_content("abc").unwrap(), "/tmp/tmp.3/abc");
    assert_eq!(machine.create_tmpdir_content("/etc/x").unwrap(), "/etc/x");
}

#[test]
fn remote_tmpdir_is_named_by_the_token() {
    let machine = RemoteMachine::new("u", "h", Some("p".to_string()), None, 22);
    match machine.create_tmpdir(0) {
        TmpdirPlan::Create(p) => assert_eq!(p, "/tmp/tmp.0"),
        TmpdirPlan::Existing(_) => panic!("no directory was made yet"),
    }
    match machine.create_tmpdir(12345) {
        TmpdirPlan::Create(p) => assert_eq!(p, "/tmp/tmp.12345"),
        TmpdirPlan::Existing(_) => panic!("no directory was made yet"),
    }
}
