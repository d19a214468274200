//! Verified core of an MPI job launcher for a hub-coordinated provider fleet.
//!
//! The library holds the orchestration logic: job configuration data,
//! command-batch construction, hostfile rendering, peer selection and
//! session assembly, outcome classification for remote command batches,
//! and the top-level state machine that drives a job from session
//! creation to cleanup. All network and file I/O lives outside the
//! library and hands plain values in and out.

pub mod command;
pub mod error;
pub mod jobconfig;
pub mod keys;
pub mod mpi;
pub mod orchestrator;
pub mod session;
pub mod textfmt;
