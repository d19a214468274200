use gumpi::command::Command;
use gumpi::error::Error;
use gumpi::mpi::{
    check_cpus, check_download_size, deploy_outcome, exec_result, fanout_outcome, keys_outcome,
    CompilationInfo, ProvisionOutcome, SessionMPI, DOWNLOAD_LIMIT,
};
use gumpi::session::{Hardware, NodeId, PeerInfo, UpdateReply};

fn peer(id: u64, addr: &str) -> PeerInfo {
    PeerInfo { node_id: NodeId { id }, peer_addr: addr.to_string() }
}

fn outcome(sid: &str, cores: usize) -> Option<ProvisionOutcome> {
    Some(ProvisionOutcome {
        session_id: sid.to_string(),
        hardware: Hardware { num_cores: cores },
    })
}

fn strings(items: &[&str]) -> Vec<String> {
    items.iter().map(|s| s.to_string()).collect()
}

fn two_peer_session() -> SessionMPI {
    SessionMPI::init(
        "hub:61622".to_string(),
        12,
        vec![peer(1, "10.0.0.1:4222"), peer(2, "10.0.0.2:4222")],
        vec![outcome("s1", 1), outcome("s2", 1)],
    )
    .unwrap()
}

#[test]
fn init_keeps_survivors_in_order() {
    let s = two_peer_session();
    assert_eq!(s.session_id, 12);
    assert_eq!(s.hub_addr, "hub:61622");
    assert!(!s.closed);
    assert_eq!(s.providers.len(), 2);
    assert_eq!(s.providers[0].info, peer(1, "10.0.0.1:4222"));
    assert_eq!(s.providers[0].session_id, "s1");
    assert_eq!(s.providers[1].info, peer(2, "10.0.0.2:4222"));
    assert_eq!(s.root_provider().info.node_id, NodeId { id: 1 });
}

#[test]
fn init_drops_failed_peers() {
    let s = SessionMPI::init(
        "h:1".to_string(),
        1,
        vec![peer(1, "a:1"), peer(2, "b:1")],
        vec![None, outcome("s2", 4)],
    )
    .unwrap();
    assert_eq!(s.providers.len(), 1);
    assert_eq!(s.providers[0].info.node_id, NodeId { id: 2 });
    // The first surviving peer is the root.
    assert_eq!(s.root_provider().session_id, "s2");
}

#[test]
fn init_with_no_survivors_is_no_peers() {
    let r = SessionMPI::init("h:1".to_string(), 1, vec![peer(1, "a:1")], vec![None]);
    assert_eq!(r, Err(Error::NoPeers));
}

#[test]
fn total_cpus_sums_cores() {
    let s = two_peer_session();
    assert_eq!(s.total_cpus(), 2);
}

#[test]
fn cpu_check_accepts_exact_fit() {
    assert!(check_cpus(2, 2).is_ok());
}

#[test]
fn cpu_check_rejects_one_more() {
    let r = check_cpus(3, 2);
    assert_eq!(r, Err(Error::InsufficientResources { requested: 3, available: 2 }));
    assert_eq!(
        r.unwrap_err().render(),
        "Not enough CPUs available: requested: 3, available: 2"
    );
}

#[test]
fn hostfile_lines_and_order() {
    let s = two_peer_session();
    assert_eq!(s.hostfile(), "10.0.0.1 port=4222 slots=1\n10.0.0.2 port=4222 slots=1");
}

#[test]
fn hostfile_is_deterministic() {
    // The same peer list renders byte-identical text.
    assert_eq!(two_peer_session().hostfile(), two_peer_session().hostfile());
}

#[test]
fn hostfile_strips_brackets_of_a_bracketed_host() {
    let s = SessionMPI::init(
        "h:1".to_string(),
        1,
        vec![peer(1, "[2001:db8::1]:4222")],
        vec![outcome("s1", 4)],
    )
    .unwrap();
    assert_eq!(s.hostfile(), "2001:db8::1 port=4222 slots=4");
}

#[test]
fn exec_commands_batch_shape() {
    let s = two_peer_session();
    let cmds = s.exec_commands(2, "hostname".to_string(), vec![], vec![], false);
    assert_eq!(cmds.len(), 2);
    assert_eq!(
        cmds[0],
        Command::WriteFile {
            content: "10.0.0.1 port=4222 slots=1\n10.0.0.2 port=4222 slots=1".to_string(),
            file_path: "hostfile".to_string(),
        }
    );
    assert_eq!(
        cmds[1],
        Command::Exec {
            executable: "runuser".to_string(),
            args: strings(&[
                "-u", "mpirun", "--", "mpirun", "-n", "2", "--hostfile", "/hostfile", "hostname"
            ]),
            working_dir: "/output".to_string(),
        }
    );
}

#[test]
fn exec_success_returns_second_output() {
    let r = exec_result(UpdateReply::Complete(strings(&["OK", "line1\nline2"])));
    assert_eq!(r, Ok("line1\nline2".to_string()));
}

#[test]
fn exec_partial_single_output_is_a_failed_write() {
    let r = exec_result(UpdateReply::Partial(strings(&["disk full"])));
    assert_eq!(r, Err(Error::WriteFileFailed("disk full".to_string())));
    assert_eq!(r.unwrap_err().render(), "WriteFile failed: disk full");
}

#[test]
fn exec_partial_with_ok_marker_is_an_execution_error() {
    let r = exec_result(UpdateReply::Partial(strings(&["written OK", "segfault"])));
    assert_eq!(r, Err(Error::ExecutionError("segfault".to_string())));
}

#[test]
fn exec_partial_without_ok_marker_is_a_failed_write() {
    let r = exec_result(UpdateReply::Partial(strings(&["denied", "noise"])));
    assert_eq!(r, Err(Error::WriteFileFailed("denied".to_string())));
}

#[test]
fn deploy_outcome_aligns_records_with_peers() {
    let nodes = vec![NodeId { id: 1 }, NodeId { id: 2 }];
    let replies = vec![
        UpdateReply::Complete(strings(&["dl1", "mk1"])),
        UpdateReply::Complete(strings(&["dl2", "mk2"])),
    ];
    let d = deploy_outcome(2, &nodes, replies).unwrap();
    assert_eq!(
        d.logs,
        vec![
            CompilationInfo { node: NodeId { id: 1 }, logs: strings(&["dl1", "mk1"]) },
            CompilationInfo { node: NodeId { id: 2 }, logs: strings(&["dl2", "mk2"]) },
        ]
    );
}

#[test]
fn deploy_failure_is_a_compilation_error() {
    // One of three peers fails its build batch partway; the others'
    // results are discarded.
    let nodes = vec![NodeId { id: 1 }, NodeId { id: 2 }, NodeId { id: 3 }];
    let replies = vec![
        UpdateReply::Complete(strings(&["a", "b", "c"])),
        UpdateReply::Partial(strings(&["download_ok", "cmake: fatal error"])),
        UpdateReply::Complete(strings(&["a", "b", "c"])),
    ];
    let r = deploy_outcome(3, &nodes, replies);
    assert_eq!(
        r,
        Err(Error::CompilationError(strings(&["download_ok", "cmake: fatal error"])))
    );
}

#[test]
fn fanout_succeeds_only_when_every_peer_succeeds() {
    let ok = vec![
        UpdateReply::Complete(strings(&["x"])),
        UpdateReply::Complete(strings(&["y"])),
    ];
    assert!(fanout_outcome(1, ok).is_ok());
    let bad = vec![
        UpdateReply::Complete(strings(&["x"])),
        UpdateReply::Partial(vec![]),
    ];
    assert_eq!(fanout_outcome(1, bad), Err(Error::ProcessingResult(vec![])));
}

#[test]
fn keys_failure_is_a_key_deployment_error() {
    let bad = vec![UpdateReply::Partial(strings(&["w1"]))];
    assert_eq!(keys_outcome(3, bad), Err(Error::KeyDeploymentError(strings(&["w1"]))));
}

#[test]
fn download_of_exactly_the_limit_is_accepted() {
    assert!(check_download_size(DOWNLOAD_LIMIT).is_ok());
    assert_eq!(DOWNLOAD_LIMIT, 1024 * 1024 * 1024);
}

#[test]
fn download_over_the_limit_is_rejected() {
    let r = check_download_size(DOWNLOAD_LIMIT + 1);
    assert_eq!(r, Err(Error::SizeLimitExceeded(DOWNLOAD_LIMIT)));
}

#[test]
fn close_is_idempotent() {
    let mut s = two_peer_session();
    // The first close owes the hub a deletion; a second close changes
    // nothing and asks for no network call.
    assert!(s.close());
    assert!(s.closed);
    assert!(!s.close());
    assert!(s.closed);
    assert_eq!(s.providers.len(), 2);
}

#[test]
fn exec_complete_reply_of_wrong_length_breaks_protocol() {
    let r = exec_result(UpdateReply::Complete(strings(&["only-one"])));
    assert!(matches!(r, Err(Error::TransportError(_))));
}

#[test]
fn exec_empty_partial_reply_breaks_protocol() {
    let r = exec_result(UpdateReply::Partial(vec![]));
    assert!(matches!(r, Err(Error::TransportError(_))));
}
