//! Commands executed on peers, and the builders for every batch the
//! launcher submits.
//!
//! A command batch is an ordered sequence submitted to one peer in one
//! request; the hub runs it sequentially and replies with one output
//! per command. The builders here pin down the exact batches for
//! deployment, input distribution, execution and output retrieval.

use vstd::prelude::*;

use crate::jobconfig::BuildType;
use crate::session::blob_url;
use crate::textfmt::{dec_str, usize_to_string};

verus! {

/// How a transferred file is materialised on the peer.
#[derive(Clone, Copy, PartialEq, Eq, Structural, Debug)]
pub enum ResourceFormat {
    Raw,
    Tar,
}

/// One command for a peer session.
#[derive(Clone, Debug, PartialEq, Eq)]
pub enum Command {
    WriteFile { content: String, file_path: String },
    DownloadFile { uri: String, file_path: String, format: ResourceFormat },
    UploadFile { uri: String, file_path: String, format: ResourceFormat },
    Exec { executable: String, args: Vec<String>, working_dir: String },
}

/// The mathematical value of a [`Command`].
#[verifier::ext_equal]
pub enum CommandView {
    WriteFile { content: Seq<char>, file_path: Seq<char> },
    DownloadFile { uri: Seq<char>, file_path: Seq<char>, format: ResourceFormat },
    UploadFile { uri: Seq<char>, file_path: Seq<char>, format: ResourceFormat },
    Exec { executable: Seq<char>, args: Seq<Seq<char>>, working_dir: Seq<char> },
}

impl View for Command {
    type V = CommandView;

    open spec fn view(&self) -> CommandView {
        match self {
            Command::WriteFile { content, file_path } => CommandView::WriteFile {
                content: content@,
                file_path: file_path@,
            },
            Command::DownloadFile { uri, file_path, format } => CommandView::DownloadFile {
                uri: uri@,
                file_path: file_path@,
                format: *format,
            },
            Command::UploadFile { uri, file_path, format } => CommandView::UploadFile {
                uri: uri@,
                file_path: file_path@,
                format: *format,
            },
            Command::Exec { executable, args, working_dir } => CommandView::Exec {
                executable: executable@,
                args: args.deep_view(),
                working_dir: working_dir@,
            },
        }
    }
}

impl DeepView for Command {
    type V = CommandView;

    open spec fn deep_view(&self) -> CommandView {
        self.view()
    }
}

/// The download command every deployment and input batch starts with:
/// fetch a tarball from the hub and unpack it at a fixed path.
pub open spec fn spec_tar_download(uri: Seq<char>, file_path: Seq<char>) -> CommandView {
    CommandView::DownloadFile { uri, file_path, format: ResourceFormat::Tar }
}

/// The build batch for one peer: download the sources to `/app`, then
/// run the mode's build commands there.
pub open spec fn spec_deployment_cmds(uri: Seq<char>, mode: BuildType) -> Seq<CommandView> {
    match mode {
        BuildType::Make => seq![
            spec_tar_download(uri, "/app"@),
            CommandView::Exec {
                executable: "make"@,
                args: seq!["-C"@, "/app"@],
                working_dir: "/app"@,
            },
        ],
        BuildType::CMake => seq![
            spec_tar_download(uri, "/app"@),
            CommandView::Exec {
                executable: "cmake"@,
                args: seq![
                    "."@,
                    "-DCMAKE_C_COMPILER=mpicc"@,
                    "-DCMAKE_CXX_COMPILER=mpicxx"@,
                    "-DCMAKE_BUILD_TYPE=Release"@,
                ],
                working_dir: "/app"@,
            },
            CommandView::Exec { executable: "make"@, args: Seq::empty(), working_dir: "/app"@ },
        ],
    }
}

/// Builds the per-peer build batch for the given source blob and mode.
pub fn generate_deployment_cmds(uri: &str, mode: BuildType) -> (cmds: Vec<Command>)
    ensures
        cmds.deep_view() == spec_deployment_cmds(uri@, mode),
{
    let download = Command::DownloadFile {
        format: ResourceFormat::Tar,
        uri: String::from_str(uri),
        file_path: String::from_str("/app"),
    };
    let mut cmds: Vec<Command> = Vec::new();
    cmds.push(download);
    match mode {
        BuildType::Make => {
            let mut make_args: Vec<String> = Vec::new();
            make_args.push(String::from_str("-C"));
            make_args.push(String::from_str("/app"));
            cmds.push(
                Command::Exec {
                    executable: String::from_str("make"),
                    args: make_args,
                    working_dir: String::from_str("/app"),
                },
            );
            proof {
                assert(cmds.deep_view() =~~= spec_deployment_cmds(uri@, mode));
            }
        },
        BuildType::CMake => {
            let mut cmake_args: Vec<String> = Vec::new();
            cmake_args.push(String::from_str("."));
            cmake_args.push(String::from_str("-DCMAKE_C_COMPILER=mpicc"));
            cmake_args.push(String::from_str("-DCMAKE_CXX_COMPILER=mpicxx"));
            cmake_args.push(String::from_str("-DCMAKE_BUILD_TYPE=Release"));
            cmds.push(
                Command::Exec {
                    executable: String::from_str("cmake"),
                    args: cmake_args,
                    working_dir: String::from_str("/app"),
                },
            );
            cmds.push(
                Command::Exec {
                    executable: String::from_str("make"),
                    args: Vec::new(),
                    working_dir: String::from_str("/app"),
                },
            );
            proof {
                assert(cmds.deep_view() =~~= spec_deployment_cmds(uri@, mode));
            }
        },
    }
    cmds
}

/// The input-distribution batch for one peer: download the input
/// tarball and unpack it at `/input`.
pub fn input_cmds(uri: &str) -> (cmds: Vec<Command>)
    ensures
        cmds.deep_view() == seq![spec_tar_download(uri@, "/input"@)],
{
    let mut cmds: Vec<Command> = Vec::new();
    cmds.push(
        Command::DownloadFile {
            format: ResourceFormat::Tar,
            uri: String::from_str(uri),
            file_path: String::from_str("/input"),
        },
    );
    proof {
        assert(cmds.deep_view() =~~= seq![spec_tar_download(uri@, "/input"@)]);
    }
    cmds
}

/// The output-retrieval command for the root peer: archive the remote
/// source path into the given hub blob.
pub fn output_upload_cmd(uri: &str, source: &str) -> (c: Command)
    ensures
        c@ == (CommandView::UploadFile {
            uri: uri@,
            file_path: source@,
            format: ResourceFormat::Tar,
        }),
{
    Command::UploadFile {
        file_path: String::from_str(source),
        format: ResourceFormat::Tar,
        uri: String::from_str(uri),
    }
}

/// A download command for a blob of the current hub session.
pub fn get_download_cmd(
    hub_addr: &str,
    session_id: u64,
    blob_id: u64,
    filename: String,
    format: ResourceFormat,
) -> (c: Command)
    ensures
        c@ == (CommandView::DownloadFile {
            uri: "http://"@ + hub_addr@ + "/sessions"@ + "/"@ + dec_str(session_id as nat)
                + "/blobs"@ + "/"@ + dec_str(blob_id as nat),
            file_path: filename@,
            format,
        }),
{
    let uri = blob_url(hub_addr, session_id, blob_id);
    Command::DownloadFile { uri, file_path: filename, format }
}

/// The resolved program name: a deployed binary lives under `/app`,
/// anything else is left to the image's search path.
pub open spec fn spec_resolved_progname(progname: Seq<char>, deployed: bool) -> Seq<char> {
    if deployed {
        "/app/"@ + progname
    } else {
        progname
    }
}

/// The full `runuser` argument list that launches `mpirun`: drop
/// privileges, point `mpirun` at the hostfile and the process count,
/// then the caller's MPI arguments, the resolved program name, and the
/// program arguments.
pub open spec fn spec_exec_cmdline(
    nproc: nat,
    progname: Seq<char>,
    args: Seq<Seq<char>>,
    mpiargs: Seq<Seq<char>>,
    deployed: bool,
) -> Seq<Seq<char>> {
    seq!["-u"@, "mpirun"@, "--"@, "mpirun"@, "-n"@, dec_str(nproc), "--hostfile"@, "/hostfile"@]
        + mpiargs + seq![spec_resolved_progname(progname, deployed)] + args
}

/// Builds the `runuser` argument list for one run.
pub fn exec_cmdline(
    nproc: usize,
    progname: String,
    args: Vec<String>,
    mpiargs: Vec<String>,
    deployed: bool,
) -> (cmdline: Vec<String>)
    ensures
        cmdline.deep_view() == spec_exec_cmdline(
            nproc as nat,
            progname@,
            args.deep_view(),
            mpiargs.deep_view(),
            deployed,
        ),
{
    let ghost args_view = args.deep_view();
    let ghost mpiargs_view = mpiargs.deep_view();
    let mut cmdline: Vec<String> = Vec::new();
    cmdline.push(String::from_str("-u"));
    cmdline.push(String::from_str("mpirun"));
    cmdline.push(String::from_str("--"));
    cmdline.push(String::from_str("mpirun"));
    cmdline.push(String::from_str("-n"));
    cmdline.push(usize_to_string(nproc));
    cmdline.push(String::from_str("--hostfile"));
    cmdline.push(String::from_str("/hostfile"));
    let mut mpiargs = mpiargs;
    cmdline.append(&mut mpiargs);
    let prog = if deployed {
        let mut p = String::from_str("/app/");
        p.append(progname.as_str());
        p
    } else {
        progname
    };
    cmdline.push(prog);
    let mut args = args;
    cmdline.append(&mut args);
    proof {
        assert(cmdline.deep_view() =~~= spec_exec_cmdline(
            nproc as nat,
            progname@,
            args_view,
            mpiargs_view,
            deployed,
        ));
    }
    cmdline
}

/// The two-command batch for the root peer: write the hostfile, then
/// execute the `runuser` command line from the working directory.
pub fn exec_batch(hostfile: String, cmdline: Vec<String>) -> (cmds: Vec<Command>)
    ensures
        cmds.deep_view() == seq![
            (CommandView::WriteFile { content: hostfile@, file_path: "hostfile"@ }),
            (CommandView::Exec {
                executable: "runuser"@,
                args: cmdline.deep_view(),
                working_dir: "/output"@,
            }),
        ],
{
    let ghost cmdline_view = cmdline.deep_view();
    let ghost hostfile_view = hostfile@;
    let mut cmds: Vec<Command> = Vec::new();
    cmds.push(Command::WriteFile { content: hostfile, file_path: String::from_str("hostfile") });
    cmds.push(
        Command::Exec {
            executable: String::from_str("runuser"),
            args: cmdline,
            working_dir: String::from_str("/output"),
        },
    );
    proof {
        assert(cmds.deep_view() =~~= seq![
            (CommandView::WriteFile { content: hostfile_view, file_path: "hostfile"@ }),
            (CommandView::Exec {
                executable: "runuser"@,
                args: cmdline_view,
                working_dir: "/output"@,
            }),
        ]);
    }
    cmds
}

/// The program-name position of the command line names the deployed
/// binary under `/app` exactly when the sources were deployed, and the
/// bare program name otherwise.
pub proof fn lemma_progname_resolution(
    nproc: nat,
    progname: Seq<char>,
    args: Seq<Seq<char>>,
    mpiargs: Seq<Seq<char>>,
)
    ensures
        spec_exec_cmdline(nproc, progname, args, mpiargs, true)[8 + mpiargs.len() as int] == "/app/"@
            + progname,
        spec_exec_cmdline(nproc, progname, args, mpiargs, false)[8 + mpiargs.len() as int] == progname,
{
}

/// With no MPI arguments and no program arguments the command line is
/// exactly the fixed launcher prefix followed by the program name.
pub proof fn lemma_minimal_cmdline(nproc: nat, progname: Seq<char>)
    ensures
        spec_exec_cmdline(nproc, progname, Seq::empty(), Seq::empty(), false) == seq![
            "-u"@,
            "mpirun"@,
            "--"@,
            "mpirun"@,
            "-n"@,
            dec_str(nproc),
            "--hostfile"@,
            "/hostfile"@,
            progname,
        ],
{
    assert(spec_exec_cmdline(nproc, progname, Seq::empty(), Seq::empty(), false) =~= seq![
        "-u"@,
        "mpirun"@,
        "--"@,
        "mpirun"@,
        "-n"@,
        dec_str(nproc),
        "--hostfile"@,
        "/hostfile"@,
        progname,
    ]);
}

/// The key-deployment batch for one peer: the private key, the public
/// key, and the public key again as the authorised-keys file, all under
/// the unprivileged user's home.
pub fn keys_commands(privkey: String, pubkey: String) -> (cmds: Vec<Command>)
    ensures
        cmds.deep_view() == seq![
            (CommandView::WriteFile {
                content: privkey@,
                file_path: "home/mpirun/.ssh/id_rsa"@,
            }),
            (CommandView::WriteFile {
                content: pubkey@,
                file_path: "home/mpirun/.ssh/id_rsa.pub"@,
            }),
            (CommandView::WriteFile {
                content: pubkey@,
                file_path: "home/mpirun/.ssh/authorized_keys"@,
            }),
        ],
{
    let ghost privkey_view = privkey@;
    let ghost pubkey_view = pubkey@;
    let pubkey2 = pubkey.clone();
    let mut cmds: Vec<Command> = Vec::new();
    cmds.push(
        Command::WriteFile {
            content: privkey,
            file_path: String::from_str("home/mpirun/.ssh/id_rsa"),
        },
    );
    cmds.push(
        Command::WriteFile {
            content: pubkey,
            file_path: String::from_str("home/mpirun/.ssh/id_rsa.pub"),
        },
    );
    cmds.push(
        Command::WriteFile {
            content: pubkey2,
            file_path: String::from_str("home/mpirun/.ssh/authorized_keys"),
        },
    );
    proof {
        assert(cmds.deep_view() =~~= seq![
            (CommandView::WriteFile {
                content: privkey_view,
                file_path: "home/mpirun/.ssh/id_rsa"@,
            }),
            (CommandView::WriteFile {
                content: pubkey_view,
                file_path: "home/mpirun/.ssh/id_rsa.pub"@,
            }),
            (CommandView::WriteFile {
                content: pubkey_view,
                file_path: "home/mpirun/.ssh/authorized_keys"@,
            }),
        ]);
    }
    cmds
}

} // verus!
