//! Hub-session modelling: peers, the container image specification,
//! hub URLs, and the classification of command-batch replies.
//!
//! The hub speaks HTTP; everything here is the value-level side of that
//! conversation. The I/O itself stays outside the library, which only
//! builds the requests and classifies the replies.

use vstd::prelude::*;

use crate::error::Error;
use crate::textfmt::{dec_str, hex_str, u64_to_string, u64_to_hex};

verus! {

/// The hub service number for creating a peer session.
pub const SERVICE_CREATE_SESSION: u32 = 37;

/// The hub service number for updating a peer session with a command
/// batch.
pub const SERVICE_UPDATE: u32 = 38;

/// The hub service number for destroying a peer session.
pub const SERVICE_DESTROY_SESSION: u32 = 40;

/// The hub service number for the hardware query.
pub const SERVICE_HARDWARE: u32 = 19354;

/// An identifier the hub assigns to a provider node.
#[derive(Clone, Copy, PartialEq, Eq, Structural, Hash, Debug)]
pub struct NodeId {
    pub id: u64,
}

impl NodeId {
    /// The canonical string of a node identifier: its lower-case
    /// hexadecimal rendering.
    pub fn render(&self) -> (r: String)
        ensures
            r@ == hex_str(self.id as nat),
    {
        u64_to_hex(self.id)
    }
}

/// Hardware description of a peer; only the core count matters here.
#[derive(Clone, Copy, PartialEq, Eq, Structural, Debug)]
pub struct Hardware {
    pub num_cores: usize,
}

/// One peer as the hub enumerates it.
#[derive(Debug, PartialEq, Eq)]
pub struct PeerInfo {
    pub node_id: NodeId,
    /// The peer's address, `host:port`.
    pub peer_addr: String,
}

/// The mathematical value of a [`PeerInfo`].
pub struct PeerInfoView {
    pub node_id: NodeId,
    pub peer_addr: Seq<char>,
}

impl View for PeerInfo {
    type V = PeerInfoView;

    open spec fn view(&self) -> PeerInfoView {
        PeerInfoView { node_id: self.node_id, peer_addr: self.peer_addr@ }
    }
}

impl DeepView for PeerInfo {
    type V = PeerInfoView;

    open spec fn deep_view(&self) -> PeerInfoView {
        self.view()
    }
}

/// The body of the hub-session creation request.
#[derive(Debug, PartialEq, Eq)]
pub struct SessionInfo {
    pub name: String,
    pub environment: String,
}

/// The fixed hub-session creation body this launcher uses.
pub fn session_info() -> (s: SessionInfo)
    ensures
        s.name@ == "gumpi"@,
        s.environment@ == "hd"@,
{
    SessionInfo { name: String::from_str("gumpi"), environment: String::from_str("hd") }
}

/// A container image reference with a pinned checksum.
#[derive(Debug, PartialEq, Eq)]
pub struct Image {
    pub url: String,
    pub hash: String,
}

/// Container options required for an MPI worker.
#[derive(Debug, PartialEq, Eq)]
pub struct CreateOptions {
    pub autostart: bool,
    /// Host networking; MPI uses high ports between nodes.
    pub net_host: bool,
    /// Added kernel capabilities.
    pub cap_add: Vec<String>,
}

/// The body of a peer-session creation request.
#[derive(Debug, PartialEq, Eq)]
pub struct CreateSession {
    pub env_type: String,
    pub image: Image,
    pub name: String,
    pub options: CreateOptions,
}

/// The mathematical value of a [`CreateSession`].
pub struct CreateSessionView {
    pub env_type: Seq<char>,
    pub image_url: Seq<char>,
    pub image_hash: Seq<char>,
    pub name: Seq<char>,
    pub autostart: bool,
    pub net_host: bool,
    pub cap_add: Seq<Seq<char>>,
}

impl View for CreateSession {
    type V = CreateSessionView;

    open spec fn view(&self) -> CreateSessionView {
        CreateSessionView {
            env_type: self.env_type@,
            image_url: self.image.url@,
            image_hash: self.image.hash@,
            name: self.name@,
            autostart: self.options.autostart,
            net_host: self.options.net_host,
            cap_add: self.options.cap_add.deep_view(),
        }
    }
}

/// The one image specification every peer is provisioned from: a docker
/// image with a pinned checksum, host networking, and the `SYS_PTRACE`
/// capability that single-copy shared-memory MPI transport requires.
pub open spec fn spec_session_spec() -> CreateSessionView {
    CreateSessionView {
        env_type: "docker"@,
        image_url: "marmistrz/gumpi:0.0.3"@,
        image_hash: "sha256:285b81248af0b9e0f11cfde12edc3cb149b1b74afceb43b6fea8c662d78aeaaa"@,
        name: "gumpi"@,
        autostart: true,
        net_host: true,
        cap_add: seq!["SYS_PTRACE"@],
    }
}

/// Builds the fixed peer-session specification.
pub fn session_spec() -> (s: CreateSession)
    ensures
        s@ == spec_session_spec(),
{
    let mut cap_add: Vec<String> = Vec::new();
    cap_add.push(String::from_str("SYS_PTRACE"));
    let s = CreateSession {
        env_type: String::from_str("docker"),
        image: Image {
            url: String::from_str("marmistrz/gumpi:0.0.3"),
            hash: String::from_str(
                "sha256:285b81248af0b9e0f11cfde12edc3cb149b1b74afceb43b6fea8c662d78aeaaa",
            ),
        },
        name: String::from_str("gumpi"),
        options: CreateOptions { autostart: true, net_host: true, cap_add },
    };
    proof {
        assert(s.options.cap_add.deep_view() =~= seq!["SYS_PTRACE"@]);
        assert(s@ =~= spec_session_spec());
    }
    s
}

/// A peer-session creation request addressed to one node.
#[derive(Debug, PartialEq, Eq)]
pub struct ProvisionRequest {
    pub node_id: NodeId,
    pub session: CreateSession,
}

/// Builds one provisioning request per chosen peer, every one from the
/// same image specification, in the peers' order.
pub fn provision_requests(peers: &Vec<PeerInfo>) -> (reqs: Vec<ProvisionRequest>)
    ensures
        reqs@.len() == peers@.len(),
        forall|i: int|
            0 <= i < reqs@.len() ==> #[trigger] reqs@[i].node_id == peers@[i].node_id,
        forall|i: int| 0 <= i < reqs@.len() ==> #[trigger] reqs@[i].session@ == spec_session_spec(),
{
    let mut reqs: Vec<ProvisionRequest> = Vec::new();
    let mut i: usize = 0;
    while i < peers.len()
        invariant
            i <= peers.len(),
            reqs@.len() == i,
            forall|j: int| 0 <= j < i ==> #[trigger] reqs@[j].node_id == peers@[j].node_id,
            forall|j: int| 0 <= j < i ==> #[trigger] reqs@[j].session@ == spec_session_spec(),
        decreases peers.len() - i,
    {
        let node_id = peers[i].node_id;
        reqs.push(ProvisionRequest { node_id, session: session_spec() });
        i = i + 1;
    }
    reqs
}

/// Whether the filter retains this peer: no filter retains every peer.
pub open spec fn peer_selected(p: PeerInfo, filter: Option<Vec<NodeId>>) -> bool {
    match filter {
        Option::None => true,
        Option::Some(ids) => ids@.contains(p.node_id),
    }
}

/// Whether the list holds this node identifier.
pub fn node_list_contains(ids: &Vec<NodeId>, id: NodeId) -> (b: bool)
    ensures
        b == ids@.contains(id),
{
    let mut i: usize = 0;
    while i < ids.len()
        invariant
            i <= ids.len(),
            forall|j: int| 0 <= j < i ==> ids@[j] != id,
        decreases ids.len() - i,
    {
        if ids[i] == id {
            return true;
        }
        i = i + 1;
    }
    false
}

/// Retains the peers the filter selects, in their original order; with
/// no filter, all of them.
pub fn filter_peers(peers: Vec<PeerInfo>, filter: &Option<Vec<NodeId>>) -> (chosen: Vec<PeerInfo>)
    ensures
        chosen@ == peers@.filter(|p: PeerInfo| peer_selected(p, *filter)),
{
    let ghost pred = |p: PeerInfo| peer_selected(p, *filter);
    let ghost orig = peers@;
    let mut rest = peers;
    let mut chosen: Vec<PeerInfo> = Vec::new();
    let ghost mut done: int = 0;
    while rest.len() > 0
        invariant
            0 <= done <= orig.len(),
            rest@ =~= orig.subrange(done, orig.len() as int),
            chosen@ == orig.take(done).filter(pred),
            pred == (|p: PeerInfo| peer_selected(p, *filter)),
        decreases rest.len(),
    {
        let p = rest.remove(0);
        assert(p == orig[done]);
        let keep = match filter {
            Option::None => true,
            Option::Some(ids) => node_list_contains(ids, p.node_id),
        };
        proof {
            assert(keep == pred(p));
            reveal(Seq::filter);
            assert(orig.take(done + 1).drop_last() =~= orig.take(done));
            assert(orig.take(done + 1).last() == orig[done]);
        }
        if keep {
            chosen.push(p);
        }
        proof {
            done = done + 1;
        }
    }
    proof {
        assert(orig.take(orig.len() as int) =~= orig);
    }
    chosen
}

/// The hub's reply to a command batch: either every command's output,
/// or — when the batch failed partway — the outputs of the commands
/// that did complete.
#[derive(Debug, PartialEq, Eq)]
pub enum UpdateReply {
    Complete(Vec<String>),
    Partial(Vec<String>),
}

/// Classifies a batch reply against the batch length: a complete reply
/// must carry one output per command, and a partial reply strictly
/// fewer; anything else breaks the protocol.
pub fn check_batch_reply(batch_len: usize, reply: UpdateReply) -> (r: Result<Vec<String>, Error>)
    ensures
        r is Ok <==> (reply matches UpdateReply::Complete(outs) && outs@.len() == batch_len),
        reply matches UpdateReply::Complete(outs) ==> if outs@.len() == batch_len {
            r matches Ok(got) && got == outs
        } else {
            r matches Err(e) && e is TransportError
        },
        reply matches UpdateReply::Partial(outs) ==> if outs@.len() < batch_len {
            r matches Err(e) && e matches Error::ProcessingResult(got) && got == outs
        } else {
            r matches Err(e) && e is TransportError
        },
{
    match reply {
        UpdateReply::Complete(outs) => {
            if outs.len() == batch_len {
                Ok(outs)
            } else {
                Err(Error::TransportError(String::from_str("unexpected batch reply length")))
            }
        },
        UpdateReply::Partial(outs) => {
            if outs.len() < batch_len {
                Err(Error::ProcessingResult(outs))
            } else {
                Err(Error::TransportError(String::from_str("unexpected partial reply length")))
            }
        },
    }
}

/// `http://<hub>/sessions`
pub fn sessions_url(hub_addr: &str) -> (r: String)
    ensures
        r@ == "http://"@ + hub_addr@ + "/sessions"@,
{
    let mut r = String::from_str("http://");
    r.append(hub_addr);
    r.append("/sessions");
    r
}

/// `http://<hub>/sessions/<session_id>`
pub fn session_url(hub_addr: &str, session_id: u64) -> (r: String)
    ensures
        r@ == "http://"@ + hub_addr@ + "/sessions"@ + "/"@ + dec_str(session_id as nat),
{
    let mut r = sessions_url(hub_addr);
    r.append("/");
    let sid = u64_to_string(session_id);
    r.append(sid.as_str());
    r
}

/// `http://<hub>/sessions/<session_id>/blobs`
pub fn blobs_url(hub_addr: &str, session_id: u64) -> (r: String)
    ensures
        r@ == "http://"@ + hub_addr@ + "/sessions"@ + "/"@ + dec_str(session_id as nat)
            + "/blobs"@,
{
    let mut r = session_url(hub_addr, session_id);
    r.append("/blobs");
    r
}

/// `http://<hub>/sessions/<session_id>/blobs/<blob_id>`
pub fn blob_url(hub_addr: &str, session_id: u64, blob_id: u64) -> (r: String)
    ensures
        r@ == "http://"@ + hub_addr@ + "/sessions"@ + "/"@ + dec_str(session_id as nat) + "/blobs"@
            + "/"@ + dec_str(blob_id as nat),
{
    let mut r = blobs_url(hub_addr, session_id);
    r.append("/");
    let bid = u64_to_string(blob_id);
    r.append(bid.as_str());
    r
}

/// `http://<hub>/peers`
pub fn peers_url(hub_addr: &str) -> (r: String)
    ensures
        r@ == "http://"@ + hub_addr@ + "/peers"@,
{
    let mut r = String::from_str("http://");
    r.append(hub_addr);
    r.append("/peers");
    r
}

/// `http://<hub>/peers/send-to/<node>/<service>`
pub fn send_to_url(hub_addr: &str, node_id: NodeId, service: u32) -> (r: String)
    ensures
        r@ == "http://"@ + hub_addr@ + "/peers/send-to/"@ + hex_str(node_id.id as nat) + "/"@
            + dec_str(service as nat),
{
    let mut r = String::from_str("http://");
    r.append(hub_addr);
    r.append("/peers/send-to/");
    let node = node_id.render();
    r.append(node.as_str());
    r.append("/");
    let svc = u64_to_string(service as u64);
    r.append(svc.as_str());
    r
}

/// A blob slot on the hub: its identifier and the URL its bytes live
/// at.
#[derive(Debug, PartialEq, Eq)]
pub struct Blob {
    pub blob_id: u64,
    pub uri: String,
}

} // verus!
