use vstd::prelude::*;

verus! {

/// The opaque JSON document type of serde_json.
#[verifier::external_type_specification]
#[verifier::external_body]
pub struct ExJsonValue(serde_json::Value);

/// A request one node sends another. On the wire the two shapes are told
/// apart by the fields present, with no tag: `{"address"}` asks to join,
/// `{"message", "author"}` carries gossip.
pub enum Request {
    Join { address: String },
    Gossip { message: String, author: String },
}

/// What a request means, with its strings as character sequences.
pub enum RequestView {
    Join { address: Seq<char> },
    Gossip { message: Seq<char>, author: Seq<char> },
}

impl View for Request {
    type V = RequestView;

    open spec fn view(&self) -> RequestView {
        match self {
            Request::Join { address } => RequestView::Join { address: address@ },
            Request::Gossip { message, author } => RequestView::Gossip {
                message: message@,
                author: author@,
            },
        }
    }
}

/// The answer to a join request: the registry as it stood before the
/// joining peer was added.
pub struct HandshakeResponse {
    pub connected_nodes: Vec<String>,
}

/// A request to be sent to the peer at `target`.
pub struct Outbound {
    pub target: String,
    pub request: Request,
}

/// A request body that is neither a join nor a gossip request.
pub struct MalformedRequest;

/// Why joining the mesh through the bootstrap peer failed.
pub enum BootstrapFailure {
    /// The bootstrap peer could not be reached, or answered with an error.
    Unreachable,
    /// The bootstrap peer's answer is not a list of peer addresses.
    BadResponse,
}

/// The value serde_json parses from a text, if the text is JSON.
pub uninterp spec fn json_parse(text: Seq<char>) -> Option<serde_json::Value>;

/// The member under `key` of a JSON value, if it is an object that has one.
pub uninterp spec fn json_member(v: serde_json::Value, key: Seq<char>) -> Option<serde_json::Value>;

/// The string a JSON value holds, if it is a string.
pub uninterp spec fn json_str(v: serde_json::Value) -> Option<Seq<char>>;

/// The elements of a JSON value, if it is an array.
pub uninterp spec fn json_array(v: serde_json::Value) -> Option<Seq<serde_json::Value>>;

/// Relies on serde_json::from_str into a `Value`: the outcome depends on the
/// text alone.
#[verifier::external_body]
fn parse_json(text: &str) -> (r: Option<serde_json::Value>)
    ensures
        r == json_parse(text@),
{
    serde_json::from_str::<serde_json::Value>(text).ok()
}

/// Relies on serde_json::Value::get with a string key: the member of an
/// object under that key; `None` for a missing key or a non-object.
#[verifier::external_body]
fn member(v: &serde_json::Value, key: &str) -> (r: Option<serde_json::Value>)
    ensures
        r == json_member(*v, key@),
{
    v.get(key).cloned()
}

/// Relies on serde_json::Value::as_str: the string held by a string value.
#[verifier::external_body]
fn as_text(v: &serde_json::Value) -> (r: Option<String>)
    ensures
        r.deep_view() == json_str(*v),
{
    v.as_str().map(String::from)
}

/// Relies on serde_json::Value::as_array: the elements of an array value.
#[verifier::external_body]
fn as_list(v: &serde_json::Value) -> (r: Option<Vec<serde_json::Value>>)
    ensures
        match r {
            Some(items) => json_array(*v) == Some(items@),
            None => json_array(*v) is None,
        },
{
    v.as_array().cloned()
}

/// The string member `key` of a JSON value, if it has one.
pub open spec fn text_member(v: serde_json::Value, key: Seq<char>) -> Option<Seq<char>> {
    match json_member(v, key) {
        Some(m) => json_str(m),
        None => None,
    }
}

/// Which request the string fields of a body make. A string `address`
/// makes a join request, whatever else is there; otherwise string
/// `message` and `author` make a gossip request; anything else is no request.
pub open spec fn classify(
    address: Option<Seq<char>>,
    message: Option<Seq<char>>,
    author: Option<Seq<char>>,
) -> Option<RequestView> {
    match address {
        Some(a) => Some(RequestView::Join { address: a }),
        None => match (message, author) {
            (Some(m), Some(w)) => Some(RequestView::Gossip { message: m, author: w }),
            _ => None,
        },
    }
}

/// The request a body holds, if any.
pub open spec fn decoded(body: Seq<char>) -> Option<RequestView> {
    match json_parse(body) {
        Some(v) => classify(
            text_member(v, "address"@),
            text_member(v, "message"@),
            text_member(v, "author"@),
        ),
        None => None,
    }
}

/// The peer addresses in a handshake response body, if it is one: an
/// object whose `connected_nodes` member is an array of strings.
pub open spec fn handshake_peers(body: Seq<char>) -> Option<Seq<Seq<char>>> {
    match json_parse(body) {
        Some(v) => match json_member(v, "connected_nodes"@) {
            Some(m) => match json_array(m) {
                Some(items) => if forall|i: int|
                    0 <= i < items.len() ==> #[trigger] json_str(items[i]) is Some {
                    Some(items.map_values(|x: serde_json::Value| json_str(x)->0))
                } else {
                    None
                },
                None => None,
            },
            None => None,
        },
        None => None,
    }
}

/// Builds the request that the present string fields make, or rejects them.
pub fn classify_request(address: Option<String>, message: Option<String>, author: Option<String>) -> (r: Result<Request, MalformedRequest>)
    ensures
        match r {
            Ok(q) => classify(address.deep_view(), message.deep_view(), author.deep_view())
                == Some(q@),
            Err(_) => classify(address.deep_view(), message.deep_view(), author.deep_view()) is None,
        },
{
    match address {
        Some(a) => Ok(Request::Join { address: a }),
        None => match (message, author) {
            (Some(m), Some(w)) => Ok(Request::Gossip { message: m, author: w }),
            _ => Err(MalformedRequest),
        },
    }
}

/// Reads a request body: JSON with a string `address` for a join, or
/// string `message` and `author` for gossip.
pub fn decode_request(body: &str) -> (r: Result<Request, MalformedRequest>)
    ensures
        match r {
            Ok(q) => decoded(body@) == Some(q@),
            Err(_) => decoded(body@) is None,
        },
{
    let v = match parse_json(body) {
        Some(v) => v,
        None => return Err(MalformedRequest),
    };
    let address = text_field(&v, "address");
    let message = text_field(&v, "message");
    let author = text_field(&v, "author");
    classify_request(address, message, author)
}

fn text_field(v: &serde_json::Value, key: &str) -> (r: Option<String>)
    ensures
        r.deep_view() == text_member(*v, key@),
{
    match member(v, key) {
        Some(m) => as_text(&m),
        None => None,
    }
}

/// Reads the peer list out of a handshake response body.
pub fn parse_handshake_response(body: &str) -> (r: Result<HandshakeResponse, BootstrapFailure>)
    ensures
        match r {
            Ok(h) => handshake_peers(body@) == Some(h.connected_nodes.deep_view()),
            Err(e) => handshake_peers(body@) is None && e == BootstrapFailure::BadResponse,
        },
{
    let v = match parse_json(body) {
        Some(v) => v,
        None => return Err(BootstrapFailure::BadResponse),
    };
    let m = match member(&v, "connected_nodes") {
        Some(m) => m,
        None => return Err(BootstrapFailure::BadResponse),
    };
    let items = match as_list(&m) {
        Some(items) => items,
        None => return Err(BootstrapFailure::BadResponse),
    };
    let mut peers: Vec<String> = Vec::new();
    let mut i: usize = 0;
    while i < items.len()
        invariant
            i <= items.len(),
            json_parse(body@) == Some(v),
            json_member(v, "connected_nodes"@) == Some(m),
            json_array(m) == Some(items@),
            forall|j: int| 0 <= j < i ==> #[trigger] json_str(items@[j]) is Some,
            peers.deep_view() == items@.take(i as int).map_values(
                |x: serde_json::Value| json_str(x)->0,
            ),
        decreases items.len() - i,
    {
        match as_text(&items[i]) {
            Some(s) => {
                let ghost prev = peers.deep_view();
                peers.push(s);
                proof {
                    assert(peers.deep_view() =~= prev.push(s@));
                    assert(items@.take(i + 1).map_values(|x: serde_json::Value| json_str(x)->0)
                        =~= items@.take(i as int).map_values(
                        |x: serde_json::Value| json_str(x)->0,
                    ).push(s@));
                }
            },
            None => {
                proof {
                    assert(json_str(items@[i as int]) is None);
                }
                return Err(BootstrapFailure::BadResponse);
            },
        }
        i = i + 1;
    }
    proof {
        assert(items@.take(i as int) =~= items@);
    }
    Ok(HandshakeResponse { connected_nodes: peers })
}

} // verus!
