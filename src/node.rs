use vstd::prelude::*;
use crate::protocol::{
    decode_request, decoded, handshake_peers, parse_handshake_response, BootstrapFailure,
    HandshakeResponse, Outbound, Request, RequestView,
};
use crate::registry::PeerRegistry;

verus! {

/// Startup settings of a node.
#[derive(Clone)]
pub struct Args {
    /// The port this node listens on.
    pub port: String,
    /// The `host:port` of the peer to join through, if any.
    pub connect: Option<String>,
    /// Seconds between two gossip broadcasts.
    pub period: u16,
}

/// A member of the mesh: its own address, its settings, and its registry of
/// known peers.
#[derive(Clone)]
pub struct Node {
    connected_nodes: PeerRegistry,
    address: String,
    args: Args,
}

/// What the node answers to one inbound request.
pub enum Reply {
    /// A join was recorded; the joining peer gets the registry as it was.
    Connected(HandshakeResponse),
    /// A gossip message arrived and was noted.
    Received { message: String, author: String },
    /// The body was no request.
    Rejected,
}

/// The address a node listening on `port` reports for itself.
pub open spec fn own_address(port: Seq<char>) -> Seq<char> {
    "127.0.0.1:"@ + port
}

/// The registry after a peer at `address` has joined.
pub open spec fn after_join(peers: Seq<Seq<char>>, address: Seq<char>) -> Seq<Seq<char>> {
    peers.push(address)
}

/// The registry after joining the mesh through `bootstrap`, which answered
/// with `received`: the peers it knew, then the bootstrap peer itself.
pub open spec fn after_bootstrap(
    peers: Seq<Seq<char>>,
    received: Seq<Seq<char>>,
    bootstrap: Seq<char>,
) -> Seq<Seq<char>> {
    (peers + received).push(bootstrap)
}

/// The registry after an inbound request with body `body`: only a join
/// changes it.
pub open spec fn after_request(peers: Seq<Seq<char>>, body: Seq<char>) -> Seq<Seq<char>> {
    match decoded(body) {
        Some(RequestView::Join { address }) => after_join(peers, address),
        _ => peers,
    }
}

/// A join request from `from` to the peer at `target`.
pub open spec fn is_join_to(o: Outbound, target: Seq<char>, from: Seq<char>) -> bool {
    o.target@ == target && o.request@ == (RequestView::Join { address: from })
}

/// Relies on String::push_str: appends the characters of `t` to `s`.
#[verifier::external_body]
fn push_text(s: &mut String, t: &str)
    ensures
        final(s)@ == old(s)@ + t@,
{
    s.push_str(t);
}

impl Node {
    /// The peers this node knows, in the order it learnt them.
    pub closed spec fn peers(&self) -> Seq<Seq<char>> {
        self.connected_nodes@
    }

    /// The address this node reports for itself.
    pub closed spec fn own(&self) -> Seq<char> {
        self.address@
    }

    /// The peer this node joins the mesh through, if any.
    pub closed spec fn bootstrap(&self) -> Option<Seq<char>> {
        self.args.connect.deep_view()
    }

    /// Seconds between two gossip broadcasts.
    pub closed spec fn gossip_period(&self) -> u16 {
        self.args.period
    }

    /// Everything but the registry is the same in `self` and `other`.
    pub open spec fn same_settings(&self, other: &Node) -> bool {
        &&& self.own() == other.own()
        &&& self.bootstrap() == other.bootstrap()
        &&& self.gossip_period() == other.gossip_period()
    }

    /// The registry does not hold the node's own address.
    pub open spec fn excludes_self(&self) -> bool {
        !self.peers().contains(self.own())
    }

    /// A node with an empty registry that reports `127.0.0.1:<port>`.
    pub fn new(args: Args) -> (r: Node)
        ensures
            r.peers() == Seq::<Seq<char>>::empty(),
            r.own() == own_address(args.port@),
            r.bootstrap() == args.connect.deep_view(),
            r.gossip_period() == args.period,
    {
        let mut address = "127.0.0.1:".to_owned();
        push_text(&mut address, args.port.as_str());
        Node { connected_nodes: PeerRegistry::new(), address, args }
    }

    /// The address this node reports for itself.
    pub fn address(&self) -> (r: String)
        ensures
            r@ == self.own(),
    {
        self.address.clone()
    }

    /// Seconds between two gossip broadcasts.
    pub fn period(&self) -> (r: u16)
        ensures
            r == self.gossip_period(),
    {
        self.args.period
    }

    /// A copy of the registry.
    pub fn peers_snapshot(&self) -> (r: Vec<String>)
        ensures
            r.deep_view() == self.peers(),
    {
        self.connected_nodes.snapshot()
    }

    /// The first step of joining the mesh: the join request to send to the
    /// bootstrap peer, or `None` when no bootstrap peer is configured and
    /// the node stands alone.
    pub fn join_request(&self) -> (r: Option<Outbound>)
        ensures
            match self.bootstrap() {
                Some(b) => r is Some && is_join_to(r->0, b, self.own()),
                None => r is None,
            },
    {
        match &self.args.connect {
            Some(b) => Some(
                Outbound {
                    target: b.clone(),
                    request: Request::Join { address: self.address.clone() },
                },
            ),
            None => None,
        }
    }

    /// Records the bootstrap peer's answer: its peers, then the bootstrap
    /// peer itself, are appended to the registry. Returns the join requests
    /// to send to each of those peers (not to the bootstrap peer, which
    /// already knows this node). Without a bootstrap peer nothing changes.
    pub fn complete_join(&mut self, response: HandshakeResponse) -> (r: Vec<Outbound>)
        ensures
            final(self).same_settings(old(self)),
            match old(self).bootstrap() {
                Some(b) => {
                    &&& final(self).peers() == after_bootstrap(
                        old(self).peers(),
                        response.connected_nodes.deep_view(),
                        b,
                    )
                    &&& r.len() == response.connected_nodes.len()
                    &&& forall|i: int|
                        0 <= i < r.len() ==> is_join_to(
                            #[trigger] r[i],
                            response.connected_nodes[i]@,
                            old(self).own(),
                        )
                },
                None => final(self).peers() == old(self).peers() && r.len() == 0,
            },
    {
        let b = match &self.args.connect {
            Some(b) => b.clone(),
            None => return Vec::new(),
        };
        let peers = response.connected_nodes;
        self.connected_nodes.extend(&peers);
        self.connected_nodes.snapshot_and_append(b);
        let mut sends: Vec<Outbound> = Vec::new();
        let mut i: usize = 0;
        while i < peers.len()
            invariant
                i <= peers.len(),
                sends.len() == i,
                forall|j: int|
                    0 <= j < i ==> is_join_to(#[trigger] sends[j], peers[j]@, self.own()),
            decreases peers.len() - i,
        {
            sends.push(
                Outbound {
                    target: peers[i].clone(),
                    request: Request::Join { address: self.address.clone() },
                },
            );
            i = i + 1;
        }
        sends
    }

    /// Finishes joining the mesh from the bootstrap peer's reply: `None`
    /// when it could not be reached or answered with an error, else the
    /// body it sent. On success returns the follow-up join requests; on
    /// failure the registry is left as it was.
    pub fn finish_bootstrap(&mut self, reply: Option<String>) -> (r: Result<
        Vec<Outbound>,
        BootstrapFailure,
    >)
        ensures
            final(self).same_settings(old(self)),
            match reply {
                None => r == Err::<Vec<Outbound>, BootstrapFailure>(BootstrapFailure::Unreachable)
                    && final(self).peers() == old(self).peers(),
                Some(body) => match handshake_peers(body@) {
                    None => r == Err::<Vec<Outbound>, BootstrapFailure>(
                        BootstrapFailure::BadResponse,
                    ) && final(self).peers() == old(self).peers(),
                    Some(received) => r is Ok && match old(self).bootstrap() {
                        Some(b) => {
                            &&& final(self).peers() == after_bootstrap(
                                old(self).peers(),
                                received,
                                b,
                            )
                            &&& r->Ok_0.len() == received.len()
                            &&& forall|i: int|
                                0 <= i < received.len() ==> is_join_to(
                                    #[trigger] r->Ok_0[i],
                                    received[i],
                                    old(self).own(),
                                )
                        },
                        None => final(self).peers() == old(self).peers() && r->Ok_0.len() == 0,
                    },
                },
            },
    {
        let body = match reply {
            Some(body) => body,
            None => return Err(BootstrapFailure::Unreachable),
        };
        let response = parse_handshake_response(body.as_str())?;
        let sends = self.complete_join(response);
        Ok(sends)
    }

    /// Admits the peer at `address`: returns the registry as it stood, then
    /// appends `address`, so the joining peer never learns of itself.
    pub fn process_connection(&mut self, address: String) -> (r: HandshakeResponse)
        ensures
            final(self).same_settings(old(self)),
            r.connected_nodes.deep_view() == old(self).peers(),
            final(self).peers() == after_join(old(self).peers(), address@),
    {
        let connected_nodes = self.connected_nodes.snapshot_and_append(address);
        HandshakeResponse { connected_nodes }
    }

    /// Notes a gossip message from `addr`; the registry is not touched.
    pub fn process_message(&self, message: String, addr: String) -> (r: Reply)
        ensures
            r == (Reply::Received { message, author: addr }),
    {
        Reply::Received { message, author: addr }
    }

    /// Serves one inbound request body: a join is admitted and answered
    /// with the registry as it was, gossip is noted, anything else is
    /// rejected. Only a join changes the registry.
    pub fn handle_request(&mut self, body: &str) -> (r: Reply)
        ensures
            final(self).same_settings(old(self)),
            final(self).peers() == after_request(old(self).peers(), body@),
            match decoded(body@) {
                Some(RequestView::Join { address }) => r is Connected
                    && r->Connected_0.connected_nodes.deep_view() == old(self).peers(),
                Some(RequestView::Gossip { message, author }) => r is Received
                    && r->Received_message@ == message && r->Received_author@ == author,
                None => r is Rejected,
            },
    {
        match decode_request(body) {
            Ok(Request::Join { address }) => Reply::Connected(self.process_connection(address)),
            Ok(Request::Gossip { message, author }) => self.process_message(message, author),
            Err(_) => Reply::Rejected,
        }
    }
}

/// Self-exclusion: a join by a peer other than the node keeps the node's
/// own address out of its registry.
pub proof fn lemma_join_excludes_self(
    peers: Seq<Seq<char>>,
    own: Seq<char>,
    joiner: Seq<char>,
)
    requires
        !peers.contains(own),
        joiner != own,
    ensures
        !after_join(peers, joiner).contains(own),
{
    if after_join(peers, joiner).contains(own) {
        let i = choose|i: int| 0 <= i < peers.len() + 1 && after_join(peers, joiner)[i] == own;
        if i < peers.len() {
            assert(peers[i] == own);
        }
    }
}

/// Self-exclusion on joining: when neither the bootstrap peer nor any peer it
/// reports is the node itself, the node's registry still excludes it.
pub proof fn lemma_bootstrap_excludes_self(
    peers: Seq<Seq<char>>,
    received: Seq<Seq<char>>,
    bootstrap: Seq<char>,
    own: Seq<char>,
)
    requires
        !peers.contains(own),
        !received.contains(own),
        bootstrap != own,
    ensures
        !after_bootstrap(peers, received, bootstrap).contains(own),
{
    let merged = after_bootstrap(peers, received, bootstrap);
    if merged.contains(own) {
        let i = choose|i: int| 0 <= i < merged.len() && merged[i] == own;
        if i < peers.len() {
            assert(peers[i] == own);
        } else if i < peers.len() + received.len() {
            assert(received[i - peers.len()] == own);
        }
    }
}

/// Bootstrap merge: when a fresh node `a` joins through `b`, whose registry
/// is `known`, `b` answers with `known` and then holds `known` followed by
/// `a`, while `a` holds `known` followed by `b`.
pub proof fn lemma_bootstrap_merge(known: Seq<Seq<char>>, a: Seq<char>, b: Seq<char>)
    ensures
        after_join(known, a) == known.push(a),
        after_bootstrap(Seq::empty(), known, b) == known.push(b),
{
    assert(Seq::<Seq<char>>::empty() + known =~= known);
}

/// Gossip receipt is idempotent: a gossip body, received any number of times,
/// leaves the registry as it was.
pub proof fn lemma_gossip_idempotent(peers: Seq<Seq<char>>, body: Seq<char>)
    requires
        decoded(body) matches Some(RequestView::Gossip { .. }),
    ensures
        after_request(peers, body) == peers,
        after_request(after_request(peers, body), body) == peers,
{
}

/// A body that is no request leaves the registry as it was.
pub proof fn lemma_rejected_keeps_registry(peers: Seq<Seq<char>>, body: Seq<char>)
    requires
        decoded(body) is None,
    ensures
        after_request(peers, body) == peers,
{
}

} // verus!
