use gumpi::error::Error;
use gumpi::mpi::{ProvisionOutcome, SessionMPI};
use gumpi::orchestrator::{stage_context, Action, Event, Orchestrator, Stage};
use gumpi::session::{Hardware, NodeId, PeerInfo};

fn peer(id: u64, addr: &str) -> PeerInfo {
    PeerInfo { node_id: NodeId { id }, peer_addr: addr.to_string() }
}

fn session_with_cores(cores: &[usize]) -> SessionMPI {
    let peers: Vec<PeerInfo> = cores
        .iter()
        .enumerate()
        .map(|(i, _)| peer(i as u64 + 1, &format!("10.0.0.{}:4222", i + 1)))
        .collect();
    let outcomes: Vec<Option<ProvisionOutcome>> = cores
        .iter()
        .enumerate()
        .map(|(i, c)| {
            Some(ProvisionOutcome {
                session_id: format!("s{}", i + 1),
                hardware: Hardware { num_cores: *c },
            })
        })
        .collect();
    SessionMPI::init("hub:61622".to_string(), 12, peers, outcomes).unwrap()
}

#[test]
fn plain_run_without_sources_or_output() {
    // Two peers of one core each, numproc 2: init, exec, cleanup.
    let mut o = Orchestrator::new(2, false, false, false, false);
    assert_eq!(o.stage, Stage::Initializing);

    let a = o.step(Event::InitDone(Ok(session_with_cores(&[1, 1]))));
    assert_eq!(a, Action::DoExec);
    assert_eq!(o.stage, Stage::Executing);

    let a = o.step(Event::ExecDone(Ok("host-a\nhost-b".to_string())));
    assert_eq!(a, Action::DoCleanup);
    assert_eq!(o.stage, Stage::CleaningUp);
    assert!(o.session.as_ref().unwrap().closed);

    let a = o.step(Event::CleanupDone(Ok(())));
    assert_eq!(a, Action::Done);
    assert_eq!(o.stage, Stage::Finished);
    assert_eq!(o.failure, None);
    assert_eq!(o.output, Some("host-a\nhost-b".to_string()));
}

#[test]
fn run_with_sources_prepares_before_exec() {
    let mut o = Orchestrator::new(1, false, true, false, false);
    let a = o.step(Event::InitDone(Ok(session_with_cores(&[1]))));
    assert_eq!(a, Action::DoPrepare { deploy: true, input: false });
    let a = o.step(Event::PrepareDone(Ok(true)));
    assert_eq!(a, Action::DoExec);
    assert!(o.deployed);
}

#[test]
fn insufficient_cpus_skips_all_work() {
    // Two peers with one core each cannot serve numproc 3.
    let mut o = Orchestrator::new(3, false, true, true, true);
    let a = o.step(Event::InitDone(Ok(session_with_cores(&[1, 1]))));
    assert_eq!(a, Action::DoCleanup);
    assert_eq!(
        o.failure,
        Some(Error::InsufficientResources { requested: 3, available: 2 })
    );
    assert_eq!(
        o.failure.as_ref().unwrap().render(),
        "Not enough CPUs available: requested: 3, available: 2"
    );
    let a = o.step(Event::CleanupDone(Ok(())));
    assert_eq!(a, Action::Done);
}

#[test]
fn exact_cpu_fit_is_accepted() {
    let mut o = Orchestrator::new(2, false, false, false, false);
    let a = o.step(Event::InitDone(Ok(session_with_cores(&[1, 1]))));
    assert_eq!(a, Action::DoExec);
    assert_eq!(o.failure, None);
}

#[test]
fn build_failure_surfaces_and_cleanup_runs() {
    let mut o = Orchestrator::new(1, false, true, false, false);
    o.step(Event::InitDone(Ok(session_with_cores(&[1]))));
    let failure = Error::CompilationError(vec!["download_ok".to_string(), "stderr".to_string()]);
    let a = o.step(Event::PrepareDone(Err(failure.clone())));
    assert_eq!(a, Action::DoCleanup);
    assert_eq!(o.failure, Some(failure.clone()));
    // A cleanup failure never masks the primary error.
    let a = o.step(Event::CleanupDone(Err(Error::TransportError("reset".to_string()))));
    assert_eq!(a, Action::Done);
    assert_eq!(o.failure, Some(failure));
}

#[test]
fn interrupt_during_exec_cancels_and_cleans_up() {
    let mut o = Orchestrator::new(2, false, false, false, false);
    o.step(Event::InitDone(Ok(session_with_cores(&[1, 1]))));
    assert_eq!(o.stage, Stage::Executing);
    let a = o.step(Event::Interrupted);
    assert_eq!(a, Action::DoCleanup);
    assert_eq!(o.failure, Some(Error::CancellationEvent));
    assert_eq!(o.failure.as_ref().unwrap().render(), "Execution interrupted...");
    assert!(o.session.as_ref().unwrap().closed);
    let a = o.step(Event::CleanupDone(Ok(())));
    assert_eq!(a, Action::Done);
}

#[test]
fn interrupt_with_noclean_skips_cleanup() {
    let mut o = Orchestrator::new(2, true, false, false, false);
    o.step(Event::InitDone(Ok(session_with_cores(&[1, 1]))));
    let a = o.step(Event::Interrupted);
    assert_eq!(a, Action::Done);
    assert_eq!(o.stage, Stage::Finished);
    // The hub session is deliberately left alive.
    assert!(!o.session.as_ref().unwrap().closed);
}

#[test]
fn interrupt_during_cleanup_is_ignored() {
    let mut o = Orchestrator::new(2, false, false, false, false);
    o.step(Event::InitDone(Ok(session_with_cores(&[1, 1]))));
    o.step(Event::ExecDone(Ok("out".to_string())));
    assert_eq!(o.stage, Stage::CleaningUp);
    let a = o.step(Event::Interrupted);
    assert_eq!(a, Action::DoCleanup);
    assert_eq!(o.stage, Stage::CleaningUp);
    assert_eq!(o.failure, None);
}

#[test]
fn interrupt_before_a_session_exists_just_finishes() {
    let mut o = Orchestrator::new(2, false, false, false, false);
    let a = o.step(Event::Interrupted);
    assert_eq!(a, Action::Done);
    assert_eq!(o.failure, Some(Error::CancellationEvent));
    assert_eq!(o.session, None);
}

#[test]
fn init_failure_finishes_without_cleanup() {
    let mut o = Orchestrator::new(2, false, false, false, false);
    let a = o.step(Event::InitDone(Err(Error::NoPeers)));
    assert_eq!(a, Action::Done);
    assert_eq!(o.failure, Some(Error::NoPeers));
    assert_eq!(o.session, None);
}

#[test]
fn output_retrieval_follows_exec() {
    let mut o = Orchestrator::new(1, false, false, false, true);
    o.step(Event::InitDone(Ok(session_with_cores(&[1]))));
    let a = o.step(Event::ExecDone(Ok("res".to_string())));
    assert_eq!(a, Action::DoRetrieve);
    assert_eq!(o.stage, Stage::Retrieving);
    let a = o.step(Event::RetrieveDone(Ok(())));
    assert_eq!(a, Action::DoCleanup);
    let a = o.step(Event::CleanupDone(Ok(())));
    assert_eq!(a, Action::Done);
    assert_eq!(o.output, Some("res".to_string()));
    assert_eq!(o.failure, None);
}

#[test]
fn retrieval_failure_still_cleans_up() {
    let mut o = Orchestrator::new(1, false, false, false, true);
    o.step(Event::InitDone(Ok(session_with_cores(&[1]))));
    o.step(Event::ExecDone(Ok("res".to_string())));
    let a = o.step(Event::RetrieveDone(Err(Error::SizeLimitExceeded(1073741824))));
    assert_eq!(a, Action::DoCleanup);
    assert_eq!(o.failure, Some(Error::SizeLimitExceeded(1073741824)));
}

#[test]
fn stage_context_strings() {
    assert_eq!(stage_context(Stage::Initializing), "initializing session");
    assert_eq!(stage_context(Stage::Preparing), "deploying the sources");
    assert_eq!(stage_context(Stage::Executing), "program execution");
    assert_eq!(stage_context(Stage::Retrieving), "retrieving output");
}
