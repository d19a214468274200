//! The MPI session: provisioned providers, the hostfile, CPU
//! accounting, and the outcome classification for every pipeline
//! stage.
//!
//! A session groups the providers that survived provisioning; the
//! first one is the root peer, the only one `mpirun` is invoked on.
//! The functions here assemble the session from provisioning results,
//! render the hostfile, check CPU sufficiency, and classify the
//! replies of the build, input, execution and key-deployment batches.

use vstd::prelude::*;

use crate::command::{exec_batch, exec_cmdline, spec_exec_cmdline, Command, CommandView};
use crate::error::Error;
use crate::session::{check_batch_reply, Hardware, NodeId, PeerInfo, PeerInfoView, UpdateReply};
use crate::textfmt::{
    dec_str, first_index_of, join_strings, join_with, lemma_first_index_of, lemma_last_index_of,
    last_index_of, usize_to_string,
};

verus! {

/// One provisioned provider: the peer-session identifier the hub
/// returned, the peer it lives on, and the peer's hardware.
#[derive(Debug, PartialEq, Eq)]
pub struct ProviderMPI {
    pub session_id: String,
    pub info: PeerInfo,
    pub hardware: Hardware,
}

/// The mathematical value of a [`ProviderMPI`].
pub struct ProviderMPIView {
    pub session_id: Seq<char>,
    pub info: PeerInfoView,
    pub hardware: Hardware,
}

impl View for ProviderMPI {
    type V = ProviderMPIView;

    open spec fn view(&self) -> ProviderMPIView {
        ProviderMPIView { session_id: self.session_id@, info: self.info@, hardware: self.hardware }
    }
}

impl DeepView for ProviderMPI {
    type V = ProviderMPIView;

    open spec fn deep_view(&self) -> ProviderMPIView {
        self.view()
    }
}

/// A live hub session with its provisioned providers, in the order the
/// hub enumerated them; the first provider is the root peer.
#[derive(Debug, PartialEq, Eq)]
pub struct SessionMPI {
    pub session_id: u64,
    pub hub_addr: String,
    pub providers: Vec<ProviderMPI>,
    pub closed: bool,
}

/// What one peer's provisioning produced when it succeeded: the peer
/// session and the hardware report, joined.
#[derive(Debug, PartialEq, Eq)]
pub struct ProvisionOutcome {
    pub session_id: String,
    pub hardware: Hardware,
}

/// The mathematical value of a [`ProvisionOutcome`].
pub struct ProvisionOutcomeView {
    pub session_id: Seq<char>,
    pub hardware: Hardware,
}

impl View for ProvisionOutcome {
    type V = ProvisionOutcomeView;

    open spec fn view(&self) -> ProvisionOutcomeView {
        ProvisionOutcomeView { session_id: self.session_id@, hardware: self.hardware }
    }
}

impl DeepView for ProvisionOutcome {
    type V = ProvisionOutcomeView;

    open spec fn deep_view(&self) -> ProvisionOutcomeView {
        self.view()
    }
}

/// The providers assembled from per-peer provisioning outcomes: peers
/// whose provisioning failed are dropped, the rest keep their order.
pub open spec fn spec_survivors(
    peers: Seq<PeerInfoView>,
    outcomes: Seq<Option<ProvisionOutcomeView>>,
) -> Seq<ProviderMPIView>
    decreases peers.len(),
{
    if peers.len() == 0 {
        Seq::empty()
    } else {
        let rest = spec_survivors(peers.drop_last(), outcomes.drop_last());
        match outcomes[peers.len() - 1] {
            Option::Some(o) => rest.push(
                ProviderMPIView {
                    session_id: o.session_id,
                    info: peers[peers.len() - 1],
                    hardware: o.hardware,
                },
            ),
            Option::None => rest,
        }
    }
}

/// Some peer survives exactly when some outcome is a success.
pub proof fn lemma_survivors_nonempty(
    peers: Seq<PeerInfoView>,
    outcomes: Seq<Option<ProvisionOutcomeView>>,
)
    requires
        peers.len() == outcomes.len(),
    ensures
        spec_survivors(peers, outcomes).len() > 0 <==> (exists|i: int|
            0 <= i < outcomes.len() && outcomes[i] is Some),
    decreases peers.len(),
{
    if peers.len() > 0 {
        lemma_survivors_nonempty(peers.drop_last(), outcomes.drop_last());
        let n = peers.len() - 1;
        if outcomes[n] is Some {
            assert(spec_survivors(peers, outcomes).len() > 0);
        } else {
            assert forall|i: int|
                0 <= i < outcomes.len() && outcomes[i] is Some implies 0 <= i
                < outcomes.drop_last().len() && outcomes.drop_last()[i] is Some by {
                assert(i != n);
            }
        }
    }
}

impl SessionMPI {
    /// A session is well formed while it holds at least one provider.
    pub open spec fn wf(&self) -> bool {
        self.providers@.len() >= 1
    }

    /// Assembles the session from the hub session, the chosen peers
    /// and their provisioning outcomes. Peers that failed either
    /// provisioning step are dropped; the session is refused only when
    /// none survives. Survivors keep the hub's enumeration order, so
    /// the first surviving peer becomes the root.
    pub fn init(
        hub_addr: String,
        session_id: u64,
        peers: Vec<PeerInfo>,
        outcomes: Vec<Option<ProvisionOutcome>>,
    ) -> (r: Result<SessionMPI, Error>)
        requires
            peers@.len() == outcomes@.len(),
        ensures
            r is Ok <==> (exists|i: int|
                0 <= i < outcomes.deep_view().len() && outcomes.deep_view()[i] is Some),
            r matches Ok(s) ==> s.wf() && s.session_id == session_id && s.hub_addr@ == hub_addr@
                && !s.closed && s.providers.deep_view() == spec_survivors(
                peers.deep_view(),
                outcomes.deep_view(),
            ) && crate::mpi::spec_total_cpus(s.providers.deep_view()) >= 0,
            r matches Err(e) ==> e is NoPeers,
    {
        let ghost peers_view = peers.deep_view();
        let ghost outcomes_view = outcomes.deep_view();
        let mut rest_peers = peers;
        let mut rest_outcomes = outcomes;
        let mut providers: Vec<ProviderMPI> = Vec::new();
        let ghost mut done: int = 0;
        while rest_peers.len() > 0
            invariant
                0 <= done <= peers_view.len(),
                peers_view.len() == outcomes_view.len(),
                rest_peers@.len() == rest_outcomes@.len(),
                rest_peers@.len() == peers_view.len() - done,
                forall|j: int|
                    0 <= j < rest_peers@.len() ==> (#[trigger] rest_peers@[j]).deep_view()
                        == peers_view[done + j],
                forall|j: int|
                    0 <= j < rest_outcomes@.len() ==> (#[trigger] rest_outcomes@[j]).deep_view()
                        == outcomes_view[done + j],
                providers.deep_view() == spec_survivors(
                    peers_view.take(done),
                    outcomes_view.take(done),
                ),
            decreases rest_peers@.len(),
        {
            let ghost prev_p = rest_peers@;
            let ghost prev_o = rest_outcomes@;
            let p = rest_peers.remove(0);
            let o = rest_outcomes.remove(0);
            proof {
                assert(p == prev_p[0]);
                assert(o == prev_o[0]);
                assert(p.deep_view() == peers_view[done]);
                assert(o.deep_view() == outcomes_view[done]);
                assert(rest_peers@ == prev_p.remove(0));
                assert(rest_outcomes@ == prev_o.remove(0));
                assert forall|j: int|
                    0 <= j < rest_peers@.len() implies (#[trigger] rest_peers@[j]).deep_view()
                    == peers_view[done + 1 + j] by {
                    assert(rest_peers@[j] == prev_p[j + 1]);
                }
                assert forall|j: int|
                    0 <= j < rest_outcomes@.len() implies (#[trigger] rest_outcomes@[j]).deep_view()
                    == outcomes_view[done + 1 + j] by {
                    assert(rest_outcomes@[j] == prev_o[j + 1]);
                }
                assert(peers_view.take(done + 1).drop_last() =~= peers_view.take(done));
                assert(outcomes_view.take(done + 1).drop_last() =~= outcomes_view.take(done));
                assert(peers_view.take(done + 1)[peers_view.take(done + 1).len() - 1]
                    == peers_view[done]);
                assert(outcomes_view.take(done + 1)[peers_view.take(done + 1).len() - 1]
                    == outcomes_view[done]);
            }
            match o {
                Option::Some(out) => {
                    providers.push(
                        ProviderMPI { session_id: out.session_id, info: p, hardware: out.hardware },
                    );
                    proof {
                        assert(providers.deep_view() =~= spec_survivors(
                            peers_view.take(done + 1),
                            outcomes_view.take(done + 1),
                        ));
                    }
                },
                Option::None => {
                    proof {
                        assert(providers.deep_view() =~= spec_survivors(
                            peers_view.take(done + 1),
                            outcomes_view.take(done + 1),
                        ));
                    }
                },
            }
            proof {
                done = done + 1;
            }
        }
        proof {
            assert(peers_view.take(peers_view.len() as int) =~= peers_view);
            assert(outcomes_view.take(outcomes_view.len() as int) =~= outcomes_view);
            lemma_survivors_nonempty(peers_view, outcomes_view);
        }
        if providers.len() == 0 {
            Err(Error::NoPeers)
        } else {
            Ok(SessionMPI { session_id, hub_addr, providers, closed: false })
        }
    }

    /// The root provider: the first in the stored order.
    pub fn root_provider(&self) -> (p: &ProviderMPI)
        requires
            self.wf(),
        ensures
            p == &self.providers@[0],
    {
        &self.providers[0]
    }

    /// Marks the session closed and reports whether the hub must be
    /// asked to delete it: only on the first call. A later call
    /// changes nothing and asks for no network work, so closing is
    /// idempotent.
    pub fn close(&mut self) -> (do_delete: bool)
        ensures
            *final(self) == spec_close(*old(self)),
            do_delete == !old(self).closed,
    {
        let do_delete = !self.closed;
        self.closed = true;
        proof {
            assert(*self =~= spec_close(*old(self)));
        }
        do_delete
    }
}

/// The session after `close`: the same session, marked closed.
pub open spec fn spec_close(s: SessionMPI) -> SessionMPI {
    SessionMPI { closed: true, ..s }
}

/// Closing twice is closing once: `close` is idempotent on the session
/// state, and a second call reports that no deletion is owed.
pub proof fn lemma_close_idempotent(s: SessionMPI)
    ensures
        spec_close(spec_close(s)) == spec_close(s),
        spec_close(s).closed,
{
    assert(spec_close(spec_close(s)) =~= spec_close(s));
}

/// The total core count over the providers.
pub open spec fn spec_total_cpus(providers: Seq<ProviderMPIView>) -> nat
    decreases providers.len(),
{
    if providers.len() == 0 {
        0
    } else {
        spec_total_cpus(providers.drop_last()) + providers.last().hardware.num_cores as nat
    }
}

/// A prefix never counts more cores than the whole.
pub proof fn lemma_total_cpus_prefix(providers: Seq<ProviderMPIView>, i: int)
    requires
        0 <= i <= providers.len(),
    ensures
        spec_total_cpus(providers.take(i)) <= spec_total_cpus(providers),
    decreases providers.len() - i,
{
    if i < providers.len() {
        lemma_total_cpus_prefix(providers, i + 1);
        assert(providers.take(i + 1).drop_last() =~= providers.take(i));
        assert(spec_total_cpus(providers.take(i + 1)) == spec_total_cpus(providers.take(i))
            + providers[i].hardware.num_cores);
    } else {
        assert(providers.take(i) =~= providers);
    }
}

impl SessionMPI {
    /// The total core count over the providers.
    pub fn total_cpus(&self) -> (n: usize)
        requires
            spec_total_cpus(self.providers.deep_view()) <= usize::MAX,
        ensures
            n == spec_total_cpus(self.providers.deep_view()),
    {
        let ghost pv = self.providers.deep_view();
        let mut n: usize = 0;
        let mut i: usize = 0;
        while i < self.providers.len()
            invariant
                i <= self.providers@.len(),
                pv == self.providers.deep_view(),
                pv.len() == self.providers@.len(),
                spec_total_cpus(pv) <= usize::MAX,
                n == spec_total_cpus(pv.take(i as int)),
            decreases self.providers@.len() - i,
        {
            proof {
                assert(pv.take(i + 1).drop_last() =~= pv.take(i as int));
                assert(pv.take(i + 1).last() == pv[i as int]);
                lemma_total_cpus_prefix(pv, i + 1);
            }
            n = n + self.providers[i].hardware.num_cores;
            i = i + 1;
        }
        proof {
            assert(pv.take(self.providers@.len() as int) =~= pv);
        }
        n
    }
}

/// Accepts the request exactly when enough cores were discovered; a
/// shortfall is reported with both counts.
pub fn check_cpus(requested: usize, available: usize) -> (r: Result<(), Error>)
    ensures
        r is Ok <==> requested <= available,
        r matches Err(e) ==> e == (Error::InsufficientResources { requested, available }),
{
    if requested <= available {
        Ok(())
    } else {
        Err(Error::InsufficientResources { requested, available })
    }
}

/// Whether an address has the shape the hostfile builder accepts:
/// a bracketed host must close its bracket, any other host must carry
/// a `:port` suffix.
pub open spec fn addr_valid(addr: Seq<char>) -> bool {
    if addr.len() > 0 && addr[0] == '[' {
        first_index_of(addr, ']') != -1
    } else {
        last_index_of(addr, ':') != -1
    }
}

/// The host part of `host:port`: everything before the last colon,
/// with a bracketed host stripped of its brackets instead.
pub open spec fn spec_addr_ip(addr: Seq<char>) -> Seq<char> {
    if addr.len() > 0 && addr[0] == '[' {
        addr.subrange(1, first_index_of(addr, ']'))
    } else {
        addr.subrange(0, last_index_of(addr, ':'))
    }
}

/// Extracts the host part of a `host:port` address.
pub fn addr_ip(addr: &str) -> (ip: String)
    requires
        addr_valid(addr@),
    ensures
        ip@ == spec_addr_ip(addr@),
{
    let n = addr.unicode_len();
    if n > 0 && addr.get_char(0) == '[' {
        let mut i: usize = 0;
        while addr.get_char(i) != ']'
            invariant
                addr_valid(addr@),
                addr@.len() > 0 && addr@[0] == '[',
                n == addr@.len(),
                i < n,
                forall|j: int| 0 <= j < i ==> addr@[j] != ']',
            decreases addr@.len() - i,
        {
            i = i + 1;
            proof {
                lemma_first_index_of(addr@, ']');
                if i >= addr@.len() {
                    assert(forall|j: int| 0 <= j < addr@.len() ==> addr@[j] != ']');
                    assert(false);
                }
            }
        }
        proof {
            lemma_first_index_of(addr@, ']');
            assert(first_index_of(addr@, ']') == i);
        }
        let sub = addr.substring_char(1, i);
        String::from_str(sub)
    } else {
        let mut i: usize = n;
        loop
            invariant_except_break
                addr_valid(addr@),
                !(addr@.len() > 0 && addr@[0] == '['),
                0 < i <= addr@.len(),
                n == addr@.len(),
                forall|j: int| i <= j < addr@.len() ==> addr@[j] != ':',
            invariant
                n == addr@.len(),
            ensures
                0 <= i - 1 < addr@.len(),
                addr@[i - 1] == ':',
                forall|j: int| i - 1 < j < addr@.len() ==> addr@[j] != ':',
            decreases i,
        {
            proof {
                lemma_last_index_of(addr@, ':');
                if i == 0 {
                    assert(forall|j: int| 0 <= j < addr@.len() ==> addr@[j] != ':');
                    assert(false);
                }
            }
            if addr.get_char(i - 1) == ':' {
                break ;
            }
            i = i - 1;
        }
        proof {
            lemma_last_index_of(addr@, ':');
            assert(last_index_of(addr@, ':') == i - 1);
        }
        let sub = addr.substring_char(0, i - 1);
        String::from_str(sub)
    }
}

/// One hostfile line: the peer's host, the fixed MPI port, and one
/// slot per core.
pub open spec fn spec_hostfile_line(p: ProviderMPIView) -> Seq<char> {
    spec_addr_ip(p.info.peer_addr) + " port=4222 slots="@ + dec_str(p.hardware.num_cores as nat)
}

/// The hostfile text: one line per provider in stored order, joined
/// with newlines, no trailing newline.
pub open spec fn spec_hostfile(providers: Seq<ProviderMPIView>) -> Seq<char> {
    join_with(providers.map(|i: int, p: ProviderMPIView| spec_hostfile_line(p)), "\n"@)
}

/// Every address in the session parses as `host:port`.
pub open spec fn addrs_valid(providers: Seq<ProviderMPIView>) -> bool {
    forall|i: int| 0 <= i < providers.len() ==> addr_valid(#[trigger] providers[i].info.peer_addr)
}

impl SessionMPI {
    /// Renders the MPI hostfile for this session. The text is a
    /// function of the stored provider list alone, so equal peer lists
    /// give byte-identical hostfiles.
    pub fn hostfile(&self) -> (r: String)
        requires
            addrs_valid(self.providers.deep_view()),
        ensures
            r@ == spec_hostfile(self.providers.deep_view()),
    {
        let ghost pv = self.providers.deep_view();
        let ghost line_of = |i: int, p: ProviderMPIView| spec_hostfile_line(p);
        let mut lines: Vec<String> = Vec::new();
        let mut i: usize = 0;
        while i < self.providers.len()
            invariant
                i <= self.providers@.len(),
                pv == self.providers.deep_view(),
                pv.len() == self.providers@.len(),
                addrs_valid(pv),
                line_of == (|i: int, p: ProviderMPIView| spec_hostfile_line(p)),
                lines.deep_view() == pv.take(i as int).map(line_of),
            decreases self.providers@.len() - i,
        {
            let p = &self.providers[i];
            proof {
                assert(self.providers@[i as int].deep_view() == pv[i as int]);
                assert(p.info.peer_addr@ == pv[i as int].info.peer_addr);
                assert(addr_valid(pv[i as int].info.peer_addr));
            }
            let mut line = addr_ip(p.info.peer_addr.as_str());
            line.append(" port=4222 slots=");
            let cores = usize_to_string(p.hardware.num_cores);
            line.append(cores.as_str());
            let ghost prev_vec = lines@;
            let ghost prev_lines = lines.deep_view();
            lines.push(line);
            proof {
                assert(line@ == spec_hostfile_line(pv[i as int]));
                assert(lines@ == prev_vec.push(line));
                assert(prev_lines.len() == prev_vec.len());
                assert(prev_lines.len() == i as int);
                assert(lines@.len() == i + 1);
                assert forall|j: int| 0 <= j < i + 1 implies lines.deep_view()[j] == pv.take(
                    i + 1,
                ).map(line_of)[j] by {
                    if j < i {
                        assert(lines@[j] == prev_vec[j]);
                        assert(lines.deep_view()[j] == prev_vec[j]@);
                        assert(prev_lines[j] == prev_vec[j]@);
                        assert(prev_lines[j] == line_of(j, pv[j]));
                    } else {
                        assert(lines@[j] == line);
                    }
                }
                assert(lines.deep_view() =~= pv.take(i + 1).map(line_of));
            }
            i = i + 1;
        }
        proof {
            assert(pv.take(self.providers@.len() as int) =~= pv);
        }
        let r = join_strings(&lines, "\n");
        r
    }
}

/// The hostfile depends on the provider list alone: sessions holding
/// equal provider values render byte-identical hostfiles.
pub proof fn lemma_hostfile_deterministic(s1: SessionMPI, s2: SessionMPI)
    requires
        s1.providers.deep_view() == s2.providers.deep_view(),
    ensures
        spec_hostfile(s1.providers.deep_view()) == spec_hostfile(s2.providers.deep_view()),
{
}

impl SessionMPI {
    /// The full root-peer batch for one run: write the hostfile, then
    /// launch the program through `runuser` and `mpirun`.
    pub fn exec_commands(
        &self,
        nproc: usize,
        progname: String,
        args: Vec<String>,
        mpiargs: Vec<String>,
        deployed: bool,
    ) -> (cmds: Vec<Command>)
        requires
            addrs_valid(self.providers.deep_view()),
        ensures
            cmds.deep_view() == seq![
                (CommandView::WriteFile {
                    content: spec_hostfile(self.providers.deep_view()),
                    file_path: "hostfile"@,
                }),
                (CommandView::Exec {
                    executable: "runuser"@,
                    args: spec_exec_cmdline(
                        nproc as nat,
                        progname@,
                        args.deep_view(),
                        mpiargs.deep_view(),
                        deployed,
                    ),
                    working_dir: "/output"@,
                }),
            ],
    {
        let hostfile = self.hostfile();
        let cmdline = exec_cmdline(nproc, progname, args, mpiargs, deployed);
        exec_batch(hostfile, cmdline)
    }
}

/// Whether the text holds `"OK"` somewhere.
pub open spec fn contains_ok(s: Seq<char>) -> bool {
    exists|i: int| 0 <= i && i + 2 <= s.len() && (#[trigger] s[i]) == 'O' && s[i + 1] == 'K'
}

/// Scans for `"OK"`.
pub fn str_contains_ok(s: &str) -> (b: bool)
    ensures
        b == contains_ok(s@),
{
    let n = s.unicode_len();
    if n < 2 {
        return false;
    }
    let mut i: usize = 0;
    while i + 1 < n
        invariant
            n == s@.len(),
            n >= 2,
            i + 1 <= n,
            forall|j: int| 0 <= j < i ==> !((#[trigger] s@[j]) == 'O' && s@[j + 1] == 'K'),
        decreases n - i,
    {
        if s.get_char(i) == 'O' && s.get_char(i + 1) == 'K' {
            return true;
        }
        i = i + 1;
    }
    false
}

/// Classifies the root peer's reply to the two-command run batch.
///
/// A complete reply carries the hostfile-write marker and the program
/// output; the output is the result. A partial reply of one element
/// means the hostfile write itself failed. A partial reply of two
/// elements is the hub's way of reporting a failed run after a
/// successful write — recognised by the `"OK"` marker in the first
/// element; without that marker it is classified as a failed write.
/// Any other shape breaks the protocol.
pub fn exec_result(reply: UpdateReply) -> (r: Result<String, Error>)
    ensures
        r is Ok <==> (reply matches UpdateReply::Complete(outs) && outs@.len() == 2),
        reply matches UpdateReply::Complete(outs) ==> if outs@.len() == 2 {
            r matches Ok(out) && out == outs@[1]
        } else {
            r matches Err(e) && e is TransportError
        },
        reply matches UpdateReply::Partial(outs) ==> if outs@.len() == 1 {
            r matches Err(e) && e matches Error::WriteFileFailed(o) && o == outs@[0]
        } else if outs@.len() == 2 && contains_ok(outs@[0]@) {
            r matches Err(e) && e matches Error::ExecutionError(o) && o == outs@[1]
        } else if outs@.len() == 2 {
            r matches Err(e) && e matches Error::WriteFileFailed(o) && o == outs@[0]
        } else {
            r matches Err(e) && e is TransportError
        },
{
    match reply {
        UpdateReply::Complete(mut outs) => {
            if outs.len() == 2 {
                Ok(outs.remove(1))
            } else {
                Err(Error::TransportError(String::from_str("unexpected run reply length")))
            }
        },
        UpdateReply::Partial(mut outs) => {
            if outs.len() == 1 {
                Err(Error::WriteFileFailed(outs.remove(0)))
            } else if outs.len() == 2 {
                if str_contains_ok(outs[0].as_str()) {
                    Err(Error::ExecutionError(outs.remove(1)))
                } else {
                    Err(Error::WriteFileFailed(outs.remove(0)))
                }
            } else {
                Err(Error::TransportError(String::from_str("unexpected partial run reply length")))
            }
        },
    }
}

/// One peer's build record: the node and its per-command outputs.
#[derive(Debug, PartialEq, Eq)]
pub struct CompilationInfo {
    pub node: NodeId,
    pub logs: Vec<String>,
}

/// The mathematical value of a [`CompilationInfo`].
pub struct CompilationInfoView {
    pub node: NodeId,
    pub logs: Seq<Seq<char>>,
}

impl View for CompilationInfo {
    type V = CompilationInfoView;

    open spec fn view(&self) -> CompilationInfoView {
        CompilationInfoView { node: self.node, logs: self.logs.deep_view() }
    }
}

impl DeepView for CompilationInfo {
    type V = CompilationInfoView;

    open spec fn deep_view(&self) -> CompilationInfoView {
        self.view()
    }
}

/// The build records of all peers, in peer order.
#[derive(Debug, PartialEq, Eq)]
pub struct DeploymentInfo {
    pub logs: Vec<CompilationInfo>,
}

impl View for DeploymentInfo {
    type V = Seq<CompilationInfoView>;

    open spec fn view(&self) -> Seq<CompilationInfoView> {
        self.logs.deep_view()
    }
}

/// Whether a reply reports full success for a batch of this length.
pub open spec fn good_reply(reply: UpdateReply, batch_len: nat) -> bool {
    reply matches UpdateReply::Complete(outs) && outs@.len() == batch_len
}

/// What the build fan-out reports for the first failed peer: a batch
/// that failed partway becomes a compilation error carrying the
/// partial outputs; anything else is a transport fault.
pub open spec fn spec_deploy_error(reply: UpdateReply, batch_len: nat, e: Error) -> bool {
    match reply {
        UpdateReply::Complete(_) => e is TransportError,
        UpdateReply::Partial(outs) => if outs@.len() < batch_len {
            e == Error::CompilationError(outs)
        } else {
            e is TransportError
        },
    }
}

/// Joins the build fan-out: when every peer's batch succeeded, the
/// per-peer records are collected in peer order, record `i` belonging
/// to peer `i`; otherwise the first failing peer's reply decides the
/// error and the other results are discarded.
#[verifier::loop_isolation(false)]
pub fn deploy_outcome(batch_len: usize, nodes: &Vec<NodeId>, replies: Vec<UpdateReply>) -> (r:
    Result<DeploymentInfo, Error>)
    requires
        nodes@.len() == replies@.len(),
    ensures
        r is Ok <==> (forall|i: int|
            0 <= i < replies@.len() ==> good_reply(#[trigger] replies@[i], batch_len as nat)),
        r matches Ok(d) ==> d@.len() == nodes@.len() && (forall|i: int|
            0 <= i < nodes@.len() ==> (#[trigger] d@[i]).node == nodes@[i] && d@[i].logs
                == replies@[i]->Complete_0.deep_view()),
        r matches Err(e) ==> exists|i: int|
            {
                &&& 0 <= i < replies@.len()
                &&& !good_reply(#[trigger] replies@[i], batch_len as nat)
                &&& (forall|j: int| 0 <= j < i ==> good_reply(#[trigger] replies@[j], batch_len as nat))
                &&& spec_deploy_error(replies@[i], batch_len as nat, e)
            },
{
    let ghost rv = replies@;
    let mut rest = replies;
    let mut logs: Vec<CompilationInfo> = Vec::new();
    let mut i: usize = 0;
    let total = rest.len();
    proof {
        assert(total == rv.len());
    }
    while rest.len() > 0
        invariant
            nodes@.len() == rv.len(),
            rv.len() <= usize::MAX,
            i + rest@.len() == rv.len(),
            forall|j: int| 0 <= j < rest@.len() ==> #[trigger] rest@[j] == rv[i + j],
            forall|j: int| 0 <= j < i ==> good_reply(#[trigger] rv[j], batch_len as nat),
            logs@.len() == i,
            forall|j: int|
                0 <= j < i ==> (#[trigger] logs.deep_view()[j]).node == nodes@[j]
                    && logs.deep_view()[j].logs == rv[j]->Complete_0.deep_view(),
        decreases rest@.len(),
    {
        let ghost prev = rest@;
        let reply = rest.remove(0);
        proof {
            assert(reply == rv[i as int]);
            assert forall|j: int| 0 <= j < rest@.len() implies #[trigger] rest@[j] == rv[i + 1
                + j] by {
                assert(rest@[j] == prev[j + 1]);
            }
        }
        match check_batch_reply(batch_len, reply) {
            Ok(outs) => {
                let ghost prev_logs = logs@;
                let ghost prev_dv = logs.deep_view();
                let ghost outs_view = outs.deep_view();
                proof {
                    assert(good_reply(rv[i as int], batch_len as nat));
                    assert(outs_view == rv[i as int]->Complete_0.deep_view());
                }
                let info = CompilationInfo { node: nodes[i], logs: outs };
                let ghost info_view = info.deep_view();
                proof {
                    assert(info_view.node == nodes@[i as int]);
                    assert(info_view.logs == outs_view);
                }
                logs.push(info);
                proof {
                    assert(logs@.len() == i + 1);
                    assert forall|j: int|
                        0 <= j < i + 1 implies (#[trigger] logs.deep_view()[j]).node == nodes@[j]
                        && logs.deep_view()[j].logs == rv[j]->Complete_0.deep_view() by {
                        if j < i {
                            assert(logs@[j] == prev_logs[j]);
                            assert(logs.deep_view()[j] == logs@[j].deep_view());
                            assert(prev_dv[j] == prev_logs[j].deep_view());
                            assert(prev_dv[j].node == nodes@[j]);
                            assert(prev_dv[j].logs == rv[j]->Complete_0.deep_view());
                        } else {
                            assert(logs@[j] == info);
                            assert(logs.deep_view()[j] == info_view);
                        }
                    }
                }
            },
            Err(e) => {
                proof {
                    assert(0 <= (i as int) && (i as int) < rv.len());
                    assert(!good_reply(rv[i as int], batch_len as nat));
                    assert(forall|j: int|
                        0 <= j < i ==> good_reply(#[trigger] rv[j], batch_len as nat));
                }
                match e {
                    Error::ProcessingResult(outs) => {
                        proof {
                            assert(spec_deploy_error(
                                rv[i as int],
                                batch_len as nat,
                                Error::CompilationError(outs),
                            ));
                        }
                        return Err(Error::CompilationError(outs));
                    },
                    other => {
                        proof {
                            assert(other is TransportError);
                            assert(spec_deploy_error(rv[i as int], batch_len as nat, other));
                        }
                        return Err(other);
                    },
                }
            },
        }
        i = i + 1;
    }
    Ok(DeploymentInfo { logs })
}

/// What the input and key fan-outs report for the first failed peer:
/// a batch that failed partway keeps its partial outputs; anything
/// else is a transport fault.
pub open spec fn spec_fanout_error(reply: UpdateReply, batch_len: nat, e: Error) -> bool {
    match reply {
        UpdateReply::Complete(_) => e is TransportError,
        UpdateReply::Partial(outs) => if outs@.len() < batch_len {
            e == Error::ProcessingResult(outs)
        } else {
            e is TransportError
        },
    }
}

/// Joins a fan-out whose outputs are not needed: success only when
/// every peer's batch succeeded in full, otherwise the first failing
/// peer's reply decides the error.
#[verifier::loop_isolation(false)]
pub fn fanout_outcome(batch_len: usize, replies: Vec<UpdateReply>) -> (r: Result<(), Error>)
    ensures
        r is Ok <==> (forall|i: int|
            0 <= i < replies@.len() ==> good_reply(#[trigger] replies@[i], batch_len as nat)),
        r matches Err(e) ==> exists|i: int|
            {
                &&& 0 <= i < replies@.len()
                &&& !good_reply(#[trigger] replies@[i], batch_len as nat)
                &&& (forall|j: int| 0 <= j < i ==> good_reply(#[trigger] replies@[j], batch_len as nat))
                &&& spec_fanout_error(replies@[i], batch_len as nat, e)
            },
{
    let ghost rv = replies@;
    let mut rest = replies;
    let mut i: usize = 0;
    let total = rest.len();
    proof {
        assert(total == rv.len());
    }
    while rest.len() > 0
        invariant
            rv.len() <= usize::MAX,
            i + rest@.len() == rv.len(),
            forall|j: int| 0 <= j < rest@.len() ==> #[trigger] rest@[j] == rv[i + j],
            forall|j: int| 0 <= j < i ==> good_reply(#[trigger] rv[j], batch_len as nat),
        decreases rest@.len(),
    {
        let ghost prev = rest@;
        let reply = rest.remove(0);
        proof {
            assert(reply == rv[i as int]);
            assert forall|j: int| 0 <= j < rest@.len() implies #[trigger] rest@[j] == rv[i + 1
                + j] by {
                assert(rest@[j] == prev[j + 1]);
            }
        }
        match check_batch_reply(batch_len, reply) {
            Ok(_) => {},
            Err(e) => {
                proof {
                    assert(0 <= (i as int) && (i as int) < rv.len());
                    assert(!good_reply(rv[i as int], batch_len as nat));
                    assert(forall|j: int|
                        0 <= j < i ==> good_reply(#[trigger] rv[j], batch_len as nat));
                    assert(spec_fanout_error(rv[i as int], batch_len as nat, e));
                }
                return Err(e);
            },
        }
        i = i + 1;
    }
    Ok(())
}

/// What the key fan-out reports for the first failed peer: a batch
/// that failed partway becomes a key-deployment error carrying the
/// partial outputs; anything else is a transport fault.
pub open spec fn spec_keys_error(reply: UpdateReply, batch_len: nat, e: Error) -> bool {
    match reply {
        UpdateReply::Complete(_) => e is TransportError,
        UpdateReply::Partial(outs) => if outs@.len() < batch_len {
            e == Error::KeyDeploymentError(outs)
        } else {
            e is TransportError
        },
    }
}

/// Joins the key-deployment fan-out; a batch that failed partway is
/// reported as a key-deployment error.
pub fn keys_outcome(batch_len: usize, replies: Vec<UpdateReply>) -> (r: Result<(), Error>)
    ensures
        r is Ok <==> (forall|i: int|
            0 <= i < replies@.len() ==> good_reply(#[trigger] replies@[i], batch_len as nat)),
        r matches Err(e) ==> exists|i: int|
            {
                &&& 0 <= i < replies@.len()
                &&& !good_reply(#[trigger] replies@[i], batch_len as nat)
                &&& (forall|j: int| 0 <= j < i ==> good_reply(#[trigger] replies@[j], batch_len as nat))
                &&& spec_keys_error(replies@[i], batch_len as nat, e)
            },
{
    let ghost rv = replies@;
    match fanout_outcome(batch_len, replies) {
        Ok(()) => Ok(()),
        Err(e) => {
            let ghost e_snap = e;
            let ghost k = choose|i: int|
                {
                    &&& 0 <= i < rv.len()
                    &&& !good_reply(#[trigger] rv[i], batch_len as nat)
                    &&& (forall|j: int| 0 <= j < i ==> good_reply(#[trigger] rv[j], batch_len as nat))
                    &&& spec_fanout_error(rv[i], batch_len as nat, e_snap)
                };
            match e {
                Error::ProcessingResult(outs) => {
                    proof {
                        assert(spec_fanout_error(rv[k], batch_len as nat, e_snap));
                        assert(spec_keys_error(
                            rv[k],
                            batch_len as nat,
                            Error::KeyDeploymentError(outs),
                        ));
                    }
                    Err(Error::KeyDeploymentError(outs))
                },
                other => {
                    proof {
                        assert(spec_fanout_error(rv[k], batch_len as nat, e_snap));
                        assert(other is TransportError);
                        assert(spec_keys_error(rv[k], batch_len as nat, other));
                    }
                    Err(other)
                },
            }
        },
    }
}

/// The hard ceiling on a blob download: one gibibyte.
pub const DOWNLOAD_LIMIT: u64 = 0x40000000;

/// Accepts a download size exactly when it does not exceed the
/// one-gibibyte ceiling; the ceiling itself is still accepted.
pub fn check_download_size(size: u64) -> (r: Result<(), Error>)
    ensures
        r is Ok <==> size <= DOWNLOAD_LIMIT,
        r matches Err(e) ==> e == Error::SizeLimitExceeded(DOWNLOAD_LIMIT),
{
    if size <= DOWNLOAD_LIMIT {
        Ok(())
    } else {
        Err(Error::SizeLimitExceeded(DOWNLOAD_LIMIT))
    }
}

} // verus!
