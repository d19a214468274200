use gumpi::command::Command;
use gumpi::error::Error;
use gumpi::jobconfig::{BuildType, JobConfig, Opt, Sources};
use gumpi::keys::deploy_keys_commands;
use gumpi::session::NodeId;

#[test]
fn execution_error_message() {
    let e = Error::ExecutionError("boom".to_string());
    assert_eq!(e.render(), "execution error:\nboom");
}

#[test]
fn compilation_error_message_joins_logs() {
    let e = Error::CompilationError(vec!["l1".to_string(), "l2".to_string()]);
    assert_eq!(e.render(), "compilation error:\nl1\n----------\nl2");
}

#[test]
fn config_and_transport_messages() {
    assert_eq!(Error::ConfigError("no file".to_string()).render(), "configuration error: no file");
    assert_eq!(Error::TransportError("reset".to_string()).render(), "transport error: reset");
    assert_eq!(
        Error::DeserializationError("{bad".to_string()).render(),
        "deserialization failed, raw body: {bad"
    );
}

#[test]
fn remaining_messages() {
    assert_eq!(Error::NoPeers.render(), "no peers available");
    assert_eq!(Error::CancellationEvent.render(), "Execution interrupted...");
    assert_eq!(
        Error::SizeLimitExceeded(1073741824).render(),
        "download exceeds the size limit of 1073741824 bytes"
    );
    assert_eq!(
        Error::ProcessingResult(vec!["a".to_string(), "b".to_string()]).render(),
        "batch failed partway, outputs:\na\nb"
    );
    assert_eq!(
        Error::KeyDeploymentError(vec!["a".to_string()]).render(),
        "key deployment error:\na"
    );
}

#[test]
fn provider_filter_is_none_when_empty() {
    let opt = Opt {
        numproc: 2,
        hub: "hub:61622".to_string(),
        jobconfig: "job.toml".to_string(),
        providers: vec![],
        noclean: false,
    };
    assert_eq!(opt.provider_filter(), None);
}

#[test]
fn provider_filter_keeps_the_named_nodes() {
    let opt = Opt {
        numproc: 2,
        hub: "hub:61622".to_string(),
        jobconfig: "job.toml".to_string(),
        providers: vec![NodeId { id: 9 }],
        noclean: true,
    };
    assert_eq!(opt.provider_filter(), Some(vec![NodeId { id: 9 }]));
}

#[test]
fn job_config_holds_the_job_description() {
    let config = JobConfig {
        progname: "prog".to_string(),
        args: vec!["4".to_string(), "3".to_string()],
        mpiargs: None,
        sources: Some(Sources { path: "prog.tar".to_string(), mode: BuildType::Make }),
        input: None,
        output: None,
    };
    assert_eq!(config.sources.as_ref().unwrap().mode, BuildType::Make);
    assert_eq!(config.progname, "prog");
}

#[test]
fn generated_keys_fill_the_fixed_paths() {
    let cmds = deploy_keys_commands().expect("key generation failed");
    assert_eq!(cmds.len(), 3);
    let (c0, c1, c2) = (&cmds[0], &cmds[1], &cmds[2]);
    match (c0, c1, c2) {
        (
            Command::WriteFile { content: private_key, file_path: p0 },
            Command::WriteFile { content: public_key, file_path: p1 },
            Command::WriteFile { content: authorized, file_path: p2 },
        ) => {
            assert_eq!(p0, "home/mpirun/.ssh/id_rsa");
            assert_eq!(p1, "home/mpirun/.ssh/id_rsa.pub");
            assert_eq!(p2, "home/mpirun/.ssh/authorized_keys");
            assert_eq!(public_key, authorized);
            assert!(private_key.contains("PRIVATE KEY"));
            assert!(public_key.starts_with("ssh-rsa "));
            assert!(public_key.ends_with("gumpi"));
        }
        _ => panic!("unexpected command shapes"),
    }
}
