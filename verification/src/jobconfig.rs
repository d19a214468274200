//! The job description and the launch options.
//!
//! A job names a program, its arguments, and optionally a source
//! archive to build, an input archive to distribute, and an output
//! path to retrieve. The options select the hub, the process count and
//! the providers.

use vstd::prelude::*;

use crate::session::NodeId;

verus! {

/// How an uploaded source archive is built on the peers.
#[derive(Clone, Copy, PartialEq, Eq, Structural, Debug)]
pub enum BuildType {
    Make,
    CMake,
}

/// A source archive and its build mode.
#[derive(Debug)]
pub struct Sources {
    /// Path of the archive, relative to the job-config directory.
    pub path: String,
    pub mode: BuildType,
}

/// An input archive to distribute to every peer.
#[derive(Debug)]
pub struct InputConfig {
    /// Path of the archive, relative to the job-config directory.
    pub source: String,
}

/// What to retrieve after the run.
#[derive(Debug)]
pub struct OutputConfig {
    /// Remote path to archive on the root peer.
    pub source: String,
    /// Local path to write the archive to.
    pub target: String,
}

/// An immutable job description, loaded once.
#[derive(Debug)]
pub struct JobConfig {
    pub progname: String,
    pub args: Vec<String>,
    pub mpiargs: Option<Vec<String>>,
    pub sources: Option<Sources>,
    pub input: Option<InputConfig>,
    pub output: Option<OutputConfig>,
}

/// The launch options.
#[derive(Debug)]
pub struct Opt {
    /// Total MPI process count; positive.
    pub numproc: usize,
    /// The hub endpoint, `host:port`.
    pub hub: String,
    /// Path of the job-config file.
    pub jobconfig: String,
    /// Restrict the run to these nodes; empty means no restriction.
    pub providers: Vec<NodeId>,
    /// Skip hub-session deletion at exit.
    pub noclean: bool,
}

impl Opt {
    /// The provider filter these options ask for: none when the list
    /// is empty.
    pub fn provider_filter(self) -> (r: Option<Vec<NodeId>>)
        ensures
            self.providers@.len() == 0 ==> r is None,
            self.providers@.len() > 0 ==> (r matches Some(ids) && ids == self.providers),
    {
        if self.providers.is_empty() {
            None
        } else {
            Some(self.providers)
        }
    }
}

} // verus!
