//! The error taxonomy of the launcher.
//!
//! Every failure the engine can report is one of these semantic kinds;
//! the transport and the wire format never leak through. `render`
//! produces the exact diagnostic text for each kind.

use vstd::prelude::*;

use crate::textfmt::{dec_str, join_with, join_strings, usize_to_string};

verus! {

/// A semantic failure of the launcher.
#[derive(Clone, Debug, PartialEq, Eq)]
pub enum Error {
    /// The options or the job configuration could not be loaded, or a
    /// file they name is missing.
    ConfigError(String),
    /// An HTTP or I/O failure talking to the hub.
    TransportError(String),
    /// A response body that did not decode; carries the raw body.
    DeserializationError(String),
    /// The hub reports that a command batch failed partway through;
    /// carries the outputs of the commands that did complete.
    ProcessingResult(Vec<String>),
    /// A build batch failed on a peer; carries the partial per-step
    /// outputs.
    CompilationError(Vec<String>),
    /// The program run failed on the root peer; carries the program
    /// output.
    ExecutionError(String),
    /// A key-deployment batch failed on a peer; carries the partial
    /// outputs.
    KeyDeploymentError(Vec<String>),
    /// The user interrupted the run.
    CancellationEvent,
    /// Fewer CPU cores were discovered than the job asks for.
    InsufficientResources { requested: usize, available: usize },
    /// No peer survived provisioning.
    NoPeers,
    /// A download exceeded the size ceiling; carries the ceiling.
    SizeLimitExceeded(u64),
    /// The hostfile could not be written on the root peer; carries the
    /// write-command output.
    WriteFileFailed(String),
}

/// The diagnostic text for each error kind.
pub open spec fn error_message(e: &Error) -> Seq<char> {
    match e {
        Error::ConfigError(m) => "configuration error: "@ + m@,
        Error::TransportError(m) => "transport error: "@ + m@,
        Error::DeserializationError(body) => "deserialization failed, raw body: "@ + body@,
        Error::ProcessingResult(outs) => "batch failed partway, outputs:\n"@ + join_with(
            outs.deep_view(),
            "\n"@,
        ),
        Error::CompilationError(outs) => "compilation error:\n"@ + join_with(
            outs.deep_view(),
            "\n----------\n"@,
        ),
        Error::ExecutionError(out) => "execution error:\n"@ + out@,
        Error::KeyDeploymentError(outs) => "key deployment error:\n"@ + join_with(
            outs.deep_view(),
            "\n"@,
        ),
        Error::CancellationEvent => "Execution interrupted..."@,
        Error::InsufficientResources { requested, available } =>
            "Not enough CPUs available: requested: "@ + dec_str(*requested as nat)
            + ", available: "@ + dec_str(*available as nat),
        Error::NoPeers => "no peers available"@,
        Error::SizeLimitExceeded(limit) => "download exceeds the size limit of "@ + dec_str(
            *limit as nat,
        ) + " bytes"@,
        Error::WriteFileFailed(out) => "WriteFile failed: "@ + out@,
    }
}

impl Error {
    /// Renders the diagnostic text for this error.
    pub fn render(&self) -> (r: String)
        ensures
            r@ == error_message(self),
    {
        match self {
            Error::ConfigError(m) => {
                let mut r = String::from_str("configuration error: ");
                r.append(m.as_str());
                r
            },
            Error::TransportError(m) => {
                let mut r = String::from_str("transport error: ");
                r.append(m.as_str());
                r
            },
            Error::DeserializationError(body) => {
                let mut r = String::from_str("deserialization failed, raw body: ");
                r.append(body.as_str());
                r
            },
            Error::ProcessingResult(outs) => {
                let mut r = String::from_str("batch failed partway, outputs:\n");
                let joined = join_strings(outs, "\n");
                r.append(joined.as_str());
                r
            },
            Error::CompilationError(outs) => {
                let mut r = String::from_str("compilation error:\n");
                let joined = join_strings(outs, "\n----------\n");
                r.append(joined.as_str());
                r
            },
            Error::ExecutionError(out) => {
                let mut r = String::from_str("execution error:\n");
                r.append(out.as_str());
                r
            },
            Error::KeyDeploymentError(outs) => {
                let mut r = String::from_str("key deployment error:\n");
                let joined = join_strings(outs, "\n");
                r.append(joined.as_str());
                r
            },
            Error::CancellationEvent => String::from_str("Execution interrupted..."),
            Error::InsufficientResources { requested, available } => {
                let mut r = String::from_str("Not enough CPUs available: requested: ");
                let req = usize_to_string(*requested);
                r.append(req.as_str());
                r.append(", available: ");
                let avail = usize_to_string(*available);
                r.append(avail.as_str());
                r
            },
            Error::NoPeers => String::from_str("no peers available"),
            Error::SizeLimitExceeded(limit) => {
                let mut r = String::from_str("download exceeds the size limit of ");
                let lim = crate::textfmt::u64_to_string(*limit);
                r.append(lim.as_str());
                r.append(" bytes");
                r
            },
            Error::WriteFileFailed(out) => {
                let mut r = String::from_str("WriteFile failed: ");
                r.append(out.as_str());
                r
            },
        }
    }
}

} // verus!
