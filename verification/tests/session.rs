use gumpi::error::Error;
use gumpi::session::{
    blob_url, blobs_url, check_batch_reply, filter_peers, node_list_contains, peers_url,
    provision_requests, session_info, session_spec, session_url, sessions_url, send_to_url,
    NodeId, PeerInfo, UpdateReply,
};

fn peer(id: u64, addr: &str) -> PeerInfo {
    PeerInfo { node_id: NodeId { id }, peer_addr: addr.to_string() }
}

fn strings(items: &[&str]) -> Vec<String> {
    items.iter().map(|s| s.to_string()).collect()
}

#[test]
fn session_info_body() {
    let s = session_info();
    assert_eq!(s.name, "gumpi");
    assert_eq!(s.environment, "hd");
}

#[test]
fn session_spec_is_the_pinned_image() {
    let s = session_spec();
    assert_eq!(s.env_type, "docker");
    assert_eq!(s.image.url, "marmistrz/gumpi:0.0.3");
    assert_eq!(
        s.image.hash,
        "sha256:285b81248af0b9e0f11cfde12edc3cb149b1b74afceb43b6fea8c662d78aeaaa"
    );
    assert_eq!(s.name, "gumpi");
    assert!(s.options.autostart);
    assert!(s.options.net_host);
    assert_eq!(s.options.cap_add, vec!["SYS_PTRACE".to_string()]);
}

#[test]
fn provisioning_uses_one_spec_for_all_peers() {
    let peers = vec![peer(1, "10.0.0.1:4222"), peer(2, "10.0.0.2:4222")];
    let reqs = provision_requests(&peers);
    assert_eq!(reqs.len(), 2);
    assert_eq!(reqs[0].node_id, NodeId { id: 1 });
    assert_eq!(reqs[1].node_id, NodeId { id: 2 });
    assert_eq!(reqs[0].session, reqs[1].session);
    assert_eq!(reqs[0].session, session_spec());
}

#[test]
fn no_filter_keeps_all_peers() {
    let peers = vec![peer(1, "a:1"), peer(2, "b:1")];
    let chosen = filter_peers(peers, &None);
    assert_eq!(chosen, vec![peer(1, "a:1"), peer(2, "b:1")]);
}

#[test]
fn filter_keeps_the_intersection_in_order() {
    let peers = vec![peer(1, "a:1"), peer(2, "b:1"), peer(3, "c:1")];
    // One named id is absent among the discovered peers.
    let filter = Some(vec![NodeId { id: 3 }, NodeId { id: 1 }, NodeId { id: 9 }]);
    let chosen = filter_peers(peers, &filter);
    assert_eq!(chosen, vec![peer(1, "a:1"), peer(3, "c:1")]);
}

#[test]
fn filter_with_no_match_leaves_nothing() {
    let peers = vec![peer(1, "a:1")];
    let filter = Some(vec![NodeId { id: 5 }]);
    let chosen = filter_peers(peers, &filter);
    assert!(chosen.is_empty());
}

#[test]
fn node_list_membership() {
    let ids = vec![NodeId { id: 4 }, NodeId { id: 6 }];
    assert!(node_list_contains(&ids, NodeId { id: 6 }));
    assert!(!node_list_contains(&ids, NodeId { id: 7 }));
}

#[test]
fn complete_reply_of_batch_length_is_success() {
    let r = check_batch_reply(2, UpdateReply::Complete(strings(&["a", "b"])));
    assert_eq!(r, Ok(strings(&["a", "b"])));
}

#[test]
fn partial_reply_shorter_than_batch_is_processing_result() {
    let r = check_batch_reply(2, UpdateReply::Partial(strings(&["a"])));
    assert_eq!(r, Err(Error::ProcessingResult(strings(&["a"]))));
}

#[test]
fn complete_reply_of_wrong_length_breaks_protocol() {
    let r = check_batch_reply(2, UpdateReply::Complete(strings(&["a"])));
    assert!(matches!(r, Err(Error::TransportError(_))));
}

#[test]
fn partial_reply_not_shorter_breaks_protocol() {
    let r = check_batch_reply(2, UpdateReply::Partial(strings(&["a", "b"])));
    assert!(matches!(r, Err(Error::TransportError(_))));
}

#[test]
fn hub_urls() {
    assert_eq!(sessions_url("hub:61622"), "http://hub:61622/sessions");
    assert_eq!(session_url("hub:61622", 12), "http://hub:61622/sessions/12");
    assert_eq!(blobs_url("hub:61622", 12), "http://hub:61622/sessions/12/blobs");
    assert_eq!(blob_url("hub:61622", 12, 3), "http://hub:61622/sessions/12/blobs/3");
    assert_eq!(peers_url("hub:61622"), "http://hub:61622/peers");
}

#[test]
fn send_to_url_renders_node_in_hex() {
    let url = send_to_url("hub:61622", NodeId { id: 255 }, 38);
    assert_eq!(url, "http://hub:61622/peers/send-to/ff/38");
}
