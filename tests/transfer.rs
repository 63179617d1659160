use crust::chunks::{after_last_slash, trim_text, chunk_name, merge_bytes, merge_command, path_from_chunk, split_bytes};
use crust::connection::{ConnectionArgsFrom, ConnectionArgsTo};
use crust::error::ExitCode;
use crust::machine::MachineType;
use crust::scp::{
    join_path, plan_copy, scp_route, workers_outcome, CopyPlan, WorkerJob, Direction, EntryKind, ScpArgs,
    ScpConnectionArgsFrom, ScpConnectionArgsTo, TransferRoute, ValidatedArgs,
};
use crust::tscp::ValidatedArgs as ChunkedArgs;
use crust::tscp::TscpArgs;

#[test]
fn routes_between_machine_kinds() {
    assert_eq!(
        scp_route(MachineType::LocalMachine, MachineType::RemoteMachine).unwrap(),
        TransferRoute::Upload
    );
    assert_eq!(
        scp_route(MachineType::RemoteMachine, MachineType::LocalMachine).unwrap(),
        TransferRoute::Download
    );
    assert_eq!(
        scp_route(MachineType::RemoteMachine, MachineType::RemoteMachine).unwrap(),
        TransferRoute::Staged
    );
    let e = scp_route(MachineType::LocalMachine, MachineType::LocalMachine).unwrap_err();
    assert_eq!(e.code, ExitCode::Local);
    assert_eq!(e.message, "You want to copy files between local machines. Use 'exec' instead.");
}

#[test]
fn directory_copy_onto_existing_destination_fails_first() {
    let e = plan_copy(Direction::Upload, EntryKind::Directory, true, "src", "/dst").unwrap_err();
    assert_eq!(e.code, ExitCode::Remote);
    assert_eq!(e.message, "Directory '\"/dst\"' already exists");
    let e = plan_copy(Direction::Download, EntryKind::Directory, true, "/src", "dst").unwrap_err();
    assert_eq!(e.code, ExitCode::Local);
    assert_eq!(e.message, "Directory '\"dst\"' already exists");
}

#[test]
fn copy_plans() {
    assert_eq!(
        plan_copy(Direction::Upload, EntryKind::File, true, "a", "b").unwrap(),
        CopyPlan::CopyFile
    );
    assert_eq!(
        plan_copy(Direction::Download, EntryKind::Directory, false, "a", "b").unwrap(),
        CopyPlan::MakeDirectory
    );
    let e = plan_copy(Direction::Download, EntryKind::Missing, false, "/x", "b").unwrap_err();
    assert_eq!(e.code, ExitCode::Remote);
    assert_eq!(e.message, "Requested source '\"/x\"' does not exist");
    let e = plan_copy(Direction::Upload, EntryKind::Other, false, "/dev/x", "b").unwrap_err();
    assert_eq!(e.code, ExitCode::Local);
    assert_eq!(e.message, "'\"/dev/x\"' source is not file or directory");
}

#[test]
fn entry_paths_inside_directories() {
    assert_eq!(join_path("/a/b", "c"), "/a/b/c");
    assert_eq!(join_path("/a/b/", "c"), "/a/b/c");
    assert_eq!(join_path("", "c"), "c");
    assert_eq!(join_path("/a/b", "/abs"), "/abs");
}

fn sample(len: usize) -> Vec<u8> {
    (0..len).map(|i| (i * 7 % 251) as u8).collect()
}

#[test]
fn ten_mib_with_four_threads_makes_four_chunks() {
    let total: u64 = 10 * 1024 * 1024;
    let mut raw = TscpArgs {
        src: "/data/big".to_string(),
        dst: "u@h:/data/big".to_string(),
        port: 22,
        chunk_size: None,
        threads: Some(4),
        verbose: false,
        password: Some("p".to_string()),
        pkey: None,
    };
    raw.verbose = true;
    let args = ChunkedArgs::validate_and_create(raw).unwrap();
    let size = args.get_split_size(total);
    assert_eq!(size, 2621440);

    let data = sample(total as usize);
    let chunks = split_bytes(&data, size as usize);
    assert_eq!(chunks.len(), 4);
    for c in &chunks {
        assert_eq!(c.len(), 2621440);
    }
    assert_eq!(merge_bytes(&chunks), data);
}

#[test]
fn uneven_split_has_a_shorter_last_chunk() {
    let data = sample(10);
    let chunks = split_bytes(&data, 3);
    let lens: Vec<usize> = chunks.iter().map(|c| c.len()).collect();
    assert_eq!(lens, vec![3, 3, 3, 1]);
    assert_eq!(lens.iter().sum::<usize>(), 10);
    assert_eq!(merge_bytes(&chunks), data);

    assert!(split_bytes(&Vec::new(), 5).is_empty());
    assert_eq!(merge_bytes(&Vec::new()), Vec::<u8>::new());
}

#[test]
fn chunk_names_are_padded_and_sort_in_order() {
    assert_eq!(chunk_name(0, 1), "chunk_0");
    assert_eq!(chunk_name(3, 12), "chunk_03");
    assert_eq!(chunk_name(11, 12), "chunk_11");
    assert_eq!(chunk_name(7, 1000), "chunk_007");
    let mut names: Vec<String> = (0..12).map(|i| chunk_name(i, 12)).collect();
    let expected = names.clone();
    names.reverse();
    names.sort();
    assert_eq!(names, expected);
}

#[test]
fn chunk_lands_in_the_temporary_directory() {
    assert_eq!(path_from_chunk("/tmp/tmp.1/chunk_03 ", "/tmp/tmp.2"), "/tmp/tmp.2/chunk_03");
    assert_eq!(path_from_chunk("chunk_1", "/t"), "/t/chunk_1");
    assert_eq!(after_last_slash("/a/b/c"), "c");
    assert_eq!(after_last_slash("/a/b/"), "");
}

fn scp_args(from: Option<ConnectionArgsFrom>, to: Option<ConnectionArgsTo>) -> ScpArgs {
    ScpArgs {
        src: ScpConnectionArgsFrom { path_from: "/src".to_string(), remote_params: from },
        dst: ScpConnectionArgsTo { path_to: "/dst".to_string(), remote_params: to },
        progress: true,
        threads: None,
    }
}

#[test]
fn copy_options_are_flattened() {
    let from = ConnectionArgsFrom {
        addr_from: Some("alice@src-host".to_string()),
        port_from: Some(2222),
        password_from: Some("pw".to_string()),
        pkey_from: None,
        alias_from: None,
    };
    let to = ConnectionArgsTo {
        addr_to: None,
        port_to: Some(22),
        password_to: None,
        pkey_to: None,
        alias_to: Some("box".to_string()),
    };
    let raw = scp_args(Some(from), Some(to));
    assert!(raw.validate().is_ok());
    let v = ValidatedArgs::validate_and_create(raw).unwrap();
    assert_eq!(v.username_from, Some("alice".to_string()));
    assert_eq!(v.hostname_from, Some("src-host".to_string()));
    assert_eq!(v.port_from, Some(2222));
    assert_eq!(v.password_from, Some("pw".to_string()));
    assert_eq!(v.alias_to, Some("box".to_string()));
    assert_eq!(v.hostname_to, None);
    assert_eq!(v.path_from, "/src");
    assert_eq!(v.path_to, "/dst");
    assert!(v.progress);

    let local = ValidatedArgs::validate_and_create(scp_args(None, None)).unwrap();
    assert_eq!(local.alias_from, None);
    assert_eq!(local.username_to, None);
}

#[test]
fn copy_options_validation_reports_the_source_first() {
    let from = ConnectionArgsFrom {
        addr_from: Some("bad".to_string()),
        port_from: Some(22),
        password_from: Some("p".to_string()),
        pkey_from: None,
        alias_from: None,
    };
    let to = ConnectionArgsTo {
        addr_to: Some("u@h".to_string()),
        port_to: Some(22),
        password_to: None,
        pkey_to: None,
        alias_to: None,
    };
    let e = scp_args(Some(from), Some(to.clone())).validate().unwrap_err();
    assert_eq!(e.message, "Invalid address pattern. Use <user>@<host>");
    let e = scp_args(None, Some(to)).validate().unwrap_err();
    assert_eq!(e.message, "Neither password nor pkey provided");
}

#[test]
fn one_failed_worker_fails_the_whole_transfer() {
    assert!(workers_outcome(&vec![true, true, true, true], WorkerJob::ChunkUpload).is_ok());
    assert!(workers_outcome(&Vec::new(), WorkerJob::DirectoryEntries).is_ok());
    let e = workers_outcome(&vec![true, false, true], WorkerJob::DirectoryEntries).unwrap_err();
    assert_eq!(e.code, ExitCode::Internal);
    assert_eq!(e.message, "Thread error");
    let e = workers_outcome(&vec![false], WorkerJob::ChunkUpload).unwrap_err();
    assert_eq!(e.message, "Thread [upload] error occured");
    let e = workers_outcome(&vec![true, false], WorkerJob::ChunkDownload).unwrap_err();
    assert_eq!(e.message, "Thread [download] error occured");
}

#[test]
fn chunks_are_joined_by_name() {
    assert_eq!(merge_command("/tmp/tmp.8", "/data/big"), "cat /tmp/tmp.8/chunk_* > /data/big");
}

#[test]
fn trimming_matches_the_standard_library() {
    for text in ["", "   ", " a b ", "\u{3000}chunk_1\t", "\u{85}x\u{2029}", "\u{200b}y", "z\r\n"] {
        assert_eq!(trim_text(text), text.trim());
    }
    assert_eq!(path_from_chunk("/a/\u{3000}chunk_1\t", "/t"), "/t/chunk_1");
}

#[test]
fn quoted_paths_escape_like_path_debug() {
    let e = plan_copy(Direction::Download, EntryKind::Directory, true, "/src", "it's").unwrap_err();
    assert_eq!(e.message, format!("Directory '{:?}' already exists", std::path::Path::new("it's")));
}
