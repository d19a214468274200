//! The top-level state machine that drives a job.
//!
//! The machine decides; the outside runs. Each remote operation the
//! launcher performs — session initialisation, the build and input
//! fan-outs, the run itself, output retrieval, hub-session deletion —
//! is an [`Action`] the machine hands out, and its completion (or a
//! user interrupt) comes back as an [`Event`]. The transition function
//! [`spec_step`] fixes the whole protocol: the CPU gate before any
//! work is dispatched, the interrupt path, and the guarantee that a
//! finished run leaves no live hub session behind unless cleanup was
//! explicitly declined.

use vstd::prelude::*;

use crate::error::Error;
use crate::mpi::{check_cpus, spec_close, spec_total_cpus, SessionMPI};

verus! {

/// Where the machine stands: which operation it is waiting for.
#[derive(Clone, Copy, PartialEq, Eq, Structural, Debug)]
pub enum Stage {
    /// Waiting for the hub session and the peers.
    Initializing,
    /// Waiting for the build and input fan-outs.
    Preparing,
    /// Waiting for the run on the root peer.
    Executing,
    /// Waiting for the output download.
    Retrieving,
    /// Waiting for the hub-session deletion.
    CleaningUp,
    /// Nothing left to wait for.
    Finished,
}

/// What the outside reports back to the machine.
pub enum Event {
    InitDone(Result<SessionMPI, Error>),
    /// The build and input fan-outs are joined; success carries whether
    /// the sources were deployed.
    PrepareDone(Result<bool, Error>),
    /// The run finished; success carries the program output.
    ExecDone(Result<String, Error>),
    RetrieveDone(Result<(), Error>),
    CleanupDone(Result<(), Error>),
    /// The user interrupted the run.
    Interrupted,
}

/// What the machine asks the outside to do next.
#[derive(Clone, Copy, PartialEq, Eq, Structural, Debug)]
pub enum Action {
    /// Run the build fan-out, the input fan-out, or both, then join.
    DoPrepare { deploy: bool, input: bool },
    /// Run the two-command batch on the root peer.
    DoExec,
    /// Retrieve the output archive.
    DoRetrieve,
    /// Delete the hub session.
    DoCleanup,
    /// Stop; the outcome is in the state.
    Done,
}

/// The machine's state: the immutable job parameters, the stage, and
/// what has been accumulated so far.
#[verifier::ext_equal]
pub struct Orchestrator {
    /// Requested MPI process count.
    pub numproc: usize,
    /// Skip hub-session deletion at exit.
    pub noclean: bool,
    /// The job carries a source archive to build.
    pub has_sources: bool,
    /// The job carries an input archive to distribute.
    pub has_input: bool,
    /// The job asks for output retrieval.
    pub has_output: bool,
    pub stage: Stage,
    /// The live hub session, once initialisation succeeded.
    pub session: Option<SessionMPI>,
    /// Whether the sources were built on the peers.
    pub deployed: bool,
    /// The program output, once the run succeeded.
    pub output: Option<String>,
    /// The primary error; never overwritten by cleanup.
    pub failure: Option<Error>,
}

impl Orchestrator {
    /// The machine's invariant, maintained by every step.
    pub open spec fn wf(&self) -> bool {
        &&& (self.stage is Initializing ==> self.session is None && self.failure is None
            && self.output is None)
        &&& ((self.stage is Preparing || self.stage is Executing || self.stage is Retrieving)
            ==> (self.session matches Some(s) && s.wf() && !s.closed && spec_total_cpus(
            s.providers.deep_view(),
        ) >= self.numproc) && self.failure is None)
        &&& (self.stage is Retrieving ==> self.output is Some)
        &&& (self.stage is CleaningUp ==> (self.session matches Some(s) && s.closed))
    }

    /// A fresh machine, waiting for session initialisation.
    pub fn new(
        numproc: usize,
        noclean: bool,
        has_sources: bool,
        has_input: bool,
        has_output: bool,
    ) -> (o: Orchestrator)
        ensures
            o.wf(),
            o == (Orchestrator {
                numproc,
                noclean,
                has_sources,
                has_input,
                has_output,
                stage: Stage::Initializing,
                session: None,
                deployed: false,
                output: None,
                failure: None,
            }),
    {
        Orchestrator {
            numproc,
            noclean,
            has_sources,
            has_input,
            has_output,
            stage: Stage::Initializing,
            session: None,
            deployed: false,
            output: None,
            failure: None,
        }
    }
}

/// Whether the event can answer the stage's pending operation; an
/// interrupt can arrive at any await point.
pub open spec fn event_fits(stage: Stage, event: Event) -> bool {
    match event {
        Event::Interrupted => true,
        Event::InitDone(_) => stage is Initializing,
        Event::PrepareDone(_) => stage is Preparing,
        Event::ExecDone(_) => stage is Executing,
        Event::RetrieveDone(_) => stage is Retrieving,
        Event::CleanupDone(_) => stage is CleaningUp,
    }
}

/// The turn to the cleanup stage: with `noclean` the hub session is
/// deliberately left alive and the machine finishes; with a live
/// session it is marked closed and its deletion is requested; with no
/// session, or one already closed, nothing is owed and the machine
/// finishes.
pub open spec fn spec_cleanup_step(o: Orchestrator) -> (Orchestrator, Action) {
    if o.noclean {
        (Orchestrator { stage: Stage::Finished, ..o }, Action::Done)
    } else {
        match o.session {
            Option::None => (Orchestrator { stage: Stage::Finished, ..o }, Action::Done),
            Option::Some(s) => if s.closed {
                (Orchestrator { stage: Stage::Finished, ..o }, Action::Done)
            } else {
                (
                    Orchestrator {
                        stage: Stage::CleaningUp,
                        session: Some(spec_close(s)),
                        ..o
                    },
                    Action::DoCleanup,
                )
            },
        }
    }
}

/// The transition function: what the machine does with each event.
///
/// Initialisation failure or an interrupt before a session exists ends
/// the run at once; after `InitDone` the CPU gate admits the job only
/// when the discovered cores cover `numproc`; any later failure or
/// interrupt records the primary error and turns to cleanup; a cleanup
/// result never changes the recorded outcome; an interrupt during
/// cleanup is ignored.
pub open spec fn spec_step(o: Orchestrator, event: Event) -> (Orchestrator, Action) {
    match event {
        Event::Interrupted => {
            if o.stage is CleaningUp {
                (o, Action::DoCleanup)
            } else if o.stage is Initializing {
                (
                    Orchestrator {
                        stage: Stage::Finished,
                        failure: Some(Error::CancellationEvent),
                        ..o
                    },
                    Action::Done,
                )
            } else {
                spec_cleanup_step(
                    Orchestrator { failure: Some(Error::CancellationEvent), ..o },
                )
            }
        },
        Event::InitDone(r) => match r {
            Result::Ok(s) => {
                let total = spec_total_cpus(s.providers.deep_view());
                if total < o.numproc {
                    spec_cleanup_step(
                        Orchestrator {
                            session: Some(s),
                            failure: Some(
                                Error::InsufficientResources {
                                    requested: o.numproc,
                                    available: total as usize,
                                },
                            ),
                            ..o
                        },
                    )
                } else if o.has_sources || o.has_input {
                    (
                        Orchestrator { stage: Stage::Preparing, session: Some(s), ..o },
                        Action::DoPrepare { deploy: o.has_sources, input: o.has_input },
                    )
                } else {
                    (
                        Orchestrator { stage: Stage::Executing, session: Some(s), ..o },
                        Action::DoExec,
                    )
                }
            },
            Result::Err(e) => (
                Orchestrator { stage: Stage::Finished, failure: Some(e), ..o },
                Action::Done,
            ),
        },
        Event::PrepareDone(r) => match r {
            Result::Ok(deployed) => (
                Orchestrator { stage: Stage::Executing, deployed, ..o },
                Action::DoExec,
            ),
            Result::Err(e) => spec_cleanup_step(Orchestrator { failure: Some(e), ..o }),
        },
        Event::ExecDone(r) => match r {
            Result::Ok(out) => if o.has_output {
                (
                    Orchestrator { stage: Stage::Retrieving, output: Some(out), ..o },
                    Action::DoRetrieve,
                )
            } else {
                spec_cleanup_step(Orchestrator { output: Some(out), ..o })
            },
            Result::Err(e) => spec_cleanup_step(Orchestrator { failure: Some(e), ..o }),
        },
        Event::RetrieveDone(r) => match r {
            Result::Ok(_) => spec_cleanup_step(o),
            Result::Err(e) => spec_cleanup_step(Orchestrator { failure: Some(e), ..o }),
        },
        Event::CleanupDone(_) => (
            Orchestrator { stage: Stage::Finished, ..o },
            Action::Done,
        ),
    }
}

impl Orchestrator {
    /// Turns to cleanup, exactly as [`spec_cleanup_step`] says.
    fn go_cleanup(&mut self) -> (a: Action)
        ensures
            *final(self) == spec_cleanup_step(*old(self)).0,
            a == spec_cleanup_step(*old(self)).1,
    {
        if self.noclean {
            self.stage = Stage::Finished;
            proof {
                assert(*self =~= spec_cleanup_step(*old(self)).0);
            }
            Action::Done
        } else {
            match &mut self.session {
                Option::None => {
                    self.stage = Stage::Finished;
                    proof {
                        assert(*self =~= spec_cleanup_step(*old(self)).0);
                    }
                    Action::Done
                },
                Option::Some(s) => {
                    let do_delete = s.close();
                    if do_delete {
                        self.stage = Stage::CleaningUp;
                        proof {
                            assert(*self =~= spec_cleanup_step(*old(self)).0);
                        }
                        Action::DoCleanup
                    } else {
                        self.stage = Stage::Finished;
                        proof {
                            assert(*self =~= spec_cleanup_step(*old(self)).0);
                        }
                        Action::Done
                    }
                },
            }
        }
    }

    /// Feeds one event to the machine and returns what to do next;
    /// the behaviour is exactly [`spec_step`].
    pub fn step(&mut self, event: Event) -> (a: Action)
        requires
            old(self).wf(),
            !(old(self).stage is Finished),
            event_fits(old(self).stage, event),
            event matches Event::InitDone(r) ==> (r matches Ok(s) ==> s.wf() && !s.closed
                && spec_total_cpus(s.providers.deep_view()) <= usize::MAX),
        ensures
            *final(self) == spec_step(*old(self), event).0,
            a == spec_step(*old(self), event).1,
            final(self).wf(),
    {
        match event {
            Event::Interrupted => {
                if self.stage == Stage::CleaningUp {
                    Action::DoCleanup
                } else if self.stage == Stage::Initializing {
                    self.failure = Some(Error::CancellationEvent);
                    self.stage = Stage::Finished;
                    proof {
                        assert(*self =~= spec_step(*old(self), event).0);
                    }
                    Action::Done
                } else {
                    self.failure = Some(Error::CancellationEvent);
                    self.go_cleanup()
                }
            },
            Event::InitDone(r) => match r {
                Result::Ok(s) => {
                    let total = s.total_cpus();
                    if let Err(shortfall) = check_cpus(self.numproc, total) {
                        self.session = Some(s);
                        self.failure = Some(shortfall);
                        self.go_cleanup()
                    } else if self.has_sources || self.has_input {
                        self.session = Some(s);
                        self.stage = Stage::Preparing;
                        proof {
                            assert(*self =~= spec_step(*old(self), event).0);
                        }
                        Action::DoPrepare { deploy: self.has_sources, input: self.has_input }
                    } else {
                        self.session = Some(s);
                        self.stage = Stage::Executing;
                        proof {
                            assert(*self =~= spec_step(*old(self), event).0);
                        }
                        Action::DoExec
                    }
                },
                Result::Err(e) => {
                    self.failure = Some(e);
                    self.stage = Stage::Finished;
                    proof {
                        assert(*self =~= spec_step(*old(self), event).0);
                    }
                    Action::Done
                },
            },
            Event::PrepareDone(r) => match r {
                Result::Ok(deployed) => {
                    self.deployed = deployed;
                    self.stage = Stage::Executing;
                    proof {
                        assert(*self =~= spec_step(*old(self), event).0);
                    }
                    Action::DoExec
                },
                Result::Err(e) => {
                    self.failure = Some(e);
                    self.go_cleanup()
                },
            },
            Event::ExecDone(r) => match r {
                Result::Ok(out) => {
                    self.output = Some(out);
                    if self.has_output {
                        self.stage = Stage::Retrieving;
                        proof {
                            assert(*self =~= spec_step(*old(self), event).0);
                        }
                        Action::DoRetrieve
                    } else {
                        self.go_cleanup()
                    }
                },
                Result::Err(e) => {
                    self.failure = Some(e);
                    self.go_cleanup()
                },
            },
            Event::RetrieveDone(r) => match r {
                Result::Ok(_) => self.go_cleanup(),
                Result::Err(e) => {
                    self.failure = Some(e);
                    self.go_cleanup()
                },
            },
            Event::CleanupDone(_) => {
                self.stage = Stage::Finished;
                proof {
                    assert(*self =~= spec_step(*old(self), event).0);
                }
                Action::Done
            },
        }
    }
}

/// The stage string attached to an error that arrives in this stage,
/// printed ahead of the cause chain.
pub fn stage_context(stage: Stage) -> (r: String)
    ensures
        stage is Initializing ==> r@ == "initializing session"@,
        stage is Preparing ==> r@ == "deploying the sources"@,
        stage is Executing ==> r@ == "program execution"@,
        stage is Retrieving ==> r@ == "retrieving output"@,
        stage is CleaningUp ==> r@ == "cleaning up"@,
        stage is Finished ==> r@ == "finished"@,
{
    match stage {
        Stage::Initializing => String::from_str("initializing session"),
        Stage::Preparing => String::from_str("deploying the sources"),
        Stage::Executing => String::from_str("program execution"),
        Stage::Retrieving => String::from_str("retrieving output"),
        Stage::CleaningUp => String::from_str("cleaning up"),
        Stage::Finished => String::from_str("finished"),
    }
}

/// An interrupt at any remote stage records the cancellation as the
/// outcome and turns to cleanup; unless cleanup is declined, the hub
/// session is marked closed and its deletion is the next action.
pub proof fn lemma_interrupt_triggers_cleanup(o: Orchestrator)
    requires
        o.wf(),
        o.stage is Preparing || o.stage is Executing || o.stage is Retrieving,
    ensures
        spec_step(o, Event::Interrupted).0.failure == Some(Error::CancellationEvent),
        !o.noclean ==> spec_step(o, Event::Interrupted).1 is DoCleanup && (spec_step(
            o,
            Event::Interrupted,
        ).0.session matches Some(s) && s.closed),
        o.noclean ==> spec_step(o, Event::Interrupted).1 is Done,
{
}

/// The cleanup result never masks the recorded outcome: after
/// `CleanupDone` the failure and the program output are unchanged,
/// whatever cleanup reported.
pub proof fn lemma_cleanup_preserves_outcome(o: Orchestrator, r: Result<(), Error>)
    ensures
        spec_step(o, Event::CleanupDone(r)).0.failure == o.failure,
        spec_step(o, Event::CleanupDone(r)).0.output == o.output,
        spec_step(o, Event::CleanupDone(r)).1 is Done,
{
}

/// No live hub session is ever leaked: whenever the machine finishes
/// and cleanup was not declined, either no session was ever created or
/// the session has been marked closed.
pub proof fn lemma_no_session_leak(o: Orchestrator, event: Event)
    requires
        o.wf(),
        !(o.stage is Finished),
        event_fits(o.stage, event),
    ensures
        spec_step(o, event).0.stage is Finished && !o.noclean ==> (spec_step(o, event).0.session
            is None || spec_step(o, event).0.session->0.closed),
{
}

/// The machine's state after a whole run: the events folded through
/// the transition function, in order.
pub open spec fn spec_run(o: Orchestrator, events: Seq<Event>) -> Orchestrator
    decreases events.len(),
{
    if events.len() == 0 {
        o
    } else {
        spec_run(spec_step(o, events[0]).0, events.drop_first())
    }
}

/// Whether a whole event sequence respects the protocol: each event
/// answers the stage the machine is in when it arrives, none arrives
/// after the machine finished, and a successful initialisation hands
/// over a well-formed, live session.
pub open spec fn trace_fits(o: Orchestrator, events: Seq<Event>) -> bool
    decreases events.len(),
{
    if events.len() == 0 {
        true
    } else {
        &&& !(o.stage is Finished)
        &&& event_fits(o.stage, events[0])
        &&& (events[0] matches Event::InitDone(r) ==> (r matches Ok(s) ==> s.wf() && !s.closed))
        &&& trace_fits(spec_step(o, events[0]).0, events.drop_first())
    }
}

/// No finished machine holds a live hub session, unless cleanup was
/// declined.
pub open spec fn no_leak(o: Orchestrator) -> bool {
    o.stage is Finished && !o.noclean ==> (o.session is None || o.session->0.closed)
}

/// One step keeps the machine's invariant.
pub proof fn lemma_step_preserves_wf(o: Orchestrator, event: Event)
    requires
        o.wf(),
        !(o.stage is Finished),
        event_fits(o.stage, event),
        event matches Event::InitDone(r) ==> (r matches Ok(s) ==> s.wf() && !s.closed),
    ensures
        spec_step(o, event).0.wf(),
{
}

/// Along any protocol-respecting run the machine stays well formed and
/// never finishes with a live hub session left behind: from a fresh
/// machine, whatever the peers, the failures and the interrupts, the
/// run can only end with the session closed, never created, or kept
/// alive on explicit request.
pub proof fn lemma_trace_no_session_leak(o: Orchestrator, events: Seq<Event>)
    requires
        o.wf(),
        no_leak(o),
        trace_fits(o, events),
    ensures
        spec_run(o, events).wf(),
        no_leak(spec_run(o, events)),
    decreases events.len(),
{
    if events.len() > 0 {
        let o2 = spec_step(o, events[0]).0;
        lemma_step_preserves_wf(o, events[0]);
        lemma_no_session_leak(o, events[0]);
        assert(o2.noclean == o.noclean);
        lemma_trace_no_session_leak(o2, events.drop_first());
    }
}

/// The CPU gate: a job asking for no more processes than the
/// discovered cores is admitted and dispatched, and one asking for
/// more is refused with both counts before any remote work is
/// dispatched.
pub proof fn lemma_cpu_gate(o: Orchestrator, s: SessionMPI)
    requires
        o.wf(),
        o.stage is Initializing,
        s.wf(),
        !s.closed,
        spec_total_cpus(s.providers.deep_view()) <= usize::MAX,
    ensures
        spec_total_cpus(s.providers.deep_view()) >= o.numproc ==> {
            let so = spec_step(o, Event::InitDone(Ok(s)));
            &&& so.0.failure is None
            &&& (so.1 is DoPrepare || so.1 is DoExec)
            &&& (so.1 is DoExec <==> !o.has_sources && !o.has_input)
        },
        spec_total_cpus(s.providers.deep_view()) < o.numproc ==> {
            let so = spec_step(o, Event::InitDone(Ok(s)));
            &&& so.0.failure == Some(
                Error::InsufficientResources {
                    requested: o.numproc,
                    available: spec_total_cpus(s.providers.deep_view()) as usize,
                },
            )
            &&& !(so.1 is DoPrepare)
            &&& !(so.1 is DoExec)
        },
{
}

} // verus!
