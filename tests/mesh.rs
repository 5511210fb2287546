use gossip_mesh::gossip::plan_broadcast;
use gossip_mesh::protocol::{classify_request, decode_request, parse_handshake_response};
use gossip_mesh::{Args, BootstrapFailure, Broadcaster, Node, PeerRegistry, Reply, Request};

fn node(port: &str, connect: Option<&str>) -> Node {
    Node::new(Args {
        port: port.to_string(),
        connect: connect.map(|c| c.to_string()),
        period: 5,
    })
}

fn join_body(address: &str) -> String {
    format!("{{\"address\":{}}}", serde_json::to_string(address).unwrap())
}

fn response_body(peers: &[String]) -> String {
    format!("{{\"connected_nodes\":{}}}", serde_json::to_string(peers).unwrap())
}

fn strings(v: &[&str]) -> Vec<String> {
    v.iter().map(|s| s.to_string()).collect()
}

#[test]
fn node_reports_loopback_address() {
    let n = node("8080", None);
    assert_eq!(n.address(), "127.0.0.1:8080");
    assert_eq!(n.period(), 5);
    assert!(n.peers_snapshot().is_empty());
}

#[test]
fn registry_appends_linearize() {
    let mut reg = PeerRegistry::new();
    let addrs = strings(&["a:1", "b:2", "c:3", "d:4"]);
    for (i, a) in addrs.iter().enumerate() {
        let before = reg.snapshot_and_append(a.clone());
        assert_eq!(before, addrs[..i].to_vec());
    }
    assert_eq!(reg.len(), 4);
    assert_eq!(reg.snapshot(), addrs);
}

#[test]
fn registry_keeps_duplicates() {
    let mut reg = PeerRegistry::new();
    reg.snapshot_and_append("a:1".to_string());
    let before = reg.snapshot_and_append("a:1".to_string());
    assert_eq!(before, strings(&["a:1"]));
    assert_eq!(reg.snapshot(), strings(&["a:1", "a:1"]));
}

#[test]
fn registry_extend_keeps_order() {
    let mut reg = PeerRegistry::new();
    reg.snapshot_and_append("z:0".to_string());
    reg.extend(&strings(&["x:1", "y:2"]));
    assert_eq!(reg.snapshot(), strings(&["z:0", "x:1", "y:2"]));
}

#[test]
fn handshake_response_excludes_joiner() {
    let mut b = node("2000", None);
    let first = b.process_connection("127.0.0.1:3000".to_string());
    assert!(first.connected_nodes.is_empty());
    let second = b.process_connection("127.0.0.1:3001".to_string());
    assert_eq!(second.connected_nodes, strings(&["127.0.0.1:3000"]));
    assert!(!second.connected_nodes.contains(&"127.0.0.1:3001".to_string()));
    assert!(!b.peers_snapshot().contains(&b.address()));
}

#[test]
fn bootstrap_merge_two_nodes() {
    let x = "127.0.0.1:4001";
    let y = "127.0.0.1:4002";
    let mut b = node("4000", None);
    b.process_connection(x.to_string());
    b.process_connection(y.to_string());

    let mut a = node("4100", Some("127.0.0.1:4000"));
    let join = a.join_request().unwrap();
    assert_eq!(join.target, "127.0.0.1:4000");
    let body = match &join.request {
        Request::Join { address } => {
            assert_eq!(address, "127.0.0.1:4100");
            join_body(address)
        }
        _ => panic!("expected a join request"),
    };

    let reply = b.handle_request(&body);
    let connected = match reply {
        Reply::Connected(r) => r.connected_nodes,
        _ => panic!("expected a handshake response"),
    };
    assert_eq!(connected, strings(&[x, y]));
    assert_eq!(b.peers_snapshot(), strings(&[x, y, "127.0.0.1:4100"]));

    let follow = a.finish_bootstrap(Some(response_body(&connected))).ok().unwrap();
    assert_eq!(a.peers_snapshot(), strings(&[x, y, "127.0.0.1:4000"]));
    assert_eq!(follow.len(), 2);
    for (o, t) in follow.iter().zip([x, y]) {
        assert_eq!(o.target, t);
        assert!(matches!(&o.request, Request::Join { address } if address == "127.0.0.1:4100"));
    }
    assert!(!a.peers_snapshot().contains(&a.address()));
}

#[test]
fn standalone_node_has_no_join() {
    let mut a = node("5000", None);
    assert!(a.join_request().is_none());
    let sends = a.complete_join(parse_handshake_response(&response_body(&strings(&["p:1"]))).ok().unwrap());
    assert!(sends.is_empty());
    assert!(a.peers_snapshot().is_empty());
}

#[test]
fn bootstrap_unreachable_fails() {
    let mut a = node("5100", Some("127.0.0.1:9"));
    let r = a.finish_bootstrap(None);
    assert!(matches!(r, Err(BootstrapFailure::Unreachable)));
    assert!(a.peers_snapshot().is_empty());
}

#[test]
fn bootstrap_bad_response_fails() {
    let mut a = node("5200", Some("127.0.0.1:9"));
    for body in ["not json", "{}", "{\"connected_nodes\": 3}", "{\"connected_nodes\": [\"a\", 1]}"] {
        let r = a.finish_bootstrap(Some(body.to_string()));
        assert!(matches!(r, Err(BootstrapFailure::BadResponse)), "{}", body);
    }
    assert!(a.peers_snapshot().is_empty());
}

#[test]
fn empty_handshake_response_parses() {
    let r = parse_handshake_response("{\"connected_nodes\": []}").ok().unwrap();
    assert!(r.connected_nodes.is_empty());
    let mut a = node("5300", Some("127.0.0.1:5301"));
    let follow = a.finish_bootstrap(Some("{\"connected_nodes\": []}".to_string())).ok().unwrap();
    assert!(follow.is_empty());
    assert_eq!(a.peers_snapshot(), strings(&["127.0.0.1:5301"]));
}

#[test]
fn first_tick_is_suppressed() {
    let mut g = Broadcaster::new("127.0.0.1:6000".to_string(), 3);
    assert_eq!(g.period(), 3);
    let peers = strings(&["p:1"]);
    assert!(g.tick(&peers).is_none());
    let mut tokens = Vec::new();
    for _ in 0..3 {
        let b = g.tick(&peers).unwrap();
        assert_eq!(b.token.len(), 26);
        assert_eq!(b.sends.len(), 1);
        tokens.push(b.token);
    }
    assert_ne!(tokens[0], tokens[1]);
    assert_ne!(tokens[1], tokens[2]);
}

#[test]
fn broadcast_reaches_every_peer_once() {
    let peers = strings(&["p:1", "p:2", "p:3"]);
    let author = "127.0.0.1:7000".to_string();
    let b = plan_broadcast(&peers, "TOKEN".to_string(), &author);
    assert_eq!(b.token, "TOKEN");
    assert_eq!(b.sends.len(), 3);
    for (o, p) in b.sends.iter().zip(peers.iter()) {
        assert_eq!(&o.target, p);
        assert!(matches!(&o.request,
            Request::Gossip { message, author } if message == "TOKEN" && author == "127.0.0.1:7000"));
    }
}

#[test]
fn broadcast_to_no_peers_is_empty() {
    let b = plan_broadcast(&Vec::new(), "T".to_string(), &"me:1".to_string());
    assert!(b.sends.is_empty());
}

#[test]
fn gossip_receipt_is_idempotent() {
    let mut n = node("8000", None);
    n.process_connection("q:1".to_string());
    let body = "{\"message\": \"01ARZ3NDEKTSV4RRFFQ69G5FAV\", \"author\": \"127.0.0.1:8001\"}";
    for _ in 0..2 {
        match n.handle_request(body) {
            Reply::Received { message, author } => {
                assert_eq!(message, "01ARZ3NDEKTSV4RRFFQ69G5FAV");
                assert_eq!(author, "127.0.0.1:8001");
            }
            _ => panic!("expected gossip to be received"),
        }
    }
    assert_eq!(n.peers_snapshot(), strings(&["q:1"]));
}

#[test]
fn process_message_notes_gossip() {
    let n = node("8100", None);
    let r = n.process_message("m".to_string(), "a:1".to_string());
    assert!(matches!(r, Reply::Received { message, author } if message == "m" && author == "a:1"));
}

#[test]
fn malformed_body_is_rejected() {
    let mut n = node("9000", None);
    n.process_connection("q:1".to_string());
    for body in ["{\"foo\": \"bar\"}", "not json", "{\"message\": \"m\"}", "{\"author\": \"a\"}", "[]"] {
        assert!(matches!(n.handle_request(body), Reply::Rejected), "{}", body);
    }
    assert_eq!(n.peers_snapshot(), strings(&["q:1"]));
}

#[test]
fn join_request_is_admitted() {
    let mut n = node("9100", None);
    let r = n.handle_request(&join_body("127.0.0.1:9101"));
    assert!(matches!(r, Reply::Connected(h) if h.connected_nodes.is_empty()));
    assert_eq!(n.peers_snapshot(), strings(&["127.0.0.1:9101"]));
}

#[test]
fn decode_prefers_join_shape() {
    let r = decode_request("{\"address\": \"a:1\", \"message\": \"m\", \"author\": \"w\"}");
    assert!(matches!(r, Ok(Request::Join { address }) if address == "a:1"));
    let r = decode_request("{\"address\": 5, \"message\": \"m\", \"author\": \"w\"}");
    assert!(matches!(r, Ok(Request::Gossip { message, author }) if message == "m" && author == "w"));
}

#[test]
fn classify_fields() {
    assert!(matches!(classify_request(Some("a".to_string()), None, None), Ok(Request::Join { .. })));
    assert!(matches!(
        classify_request(None, Some("m".to_string()), Some("w".to_string())),
        Ok(Request::Gossip { .. })
    ));
    assert!(classify_request(None, Some("m".to_string()), None).is_err());
    assert!(classify_request(None, None, None).is_err());
}
