use vstd::prelude::*;
use crate::protocol::{Outbound, Request, RequestView};

verus! {

/// The periodic gossip sender. It is driven by a timer: the first tick only
/// warms it up, every later tick sends one fresh token to every known peer.
pub struct Broadcaster {
    author: String,
    period: u16,
    warmed_up: bool,
}

/// The sends of one broadcast tick: the same token to every peer.
pub struct Broadcast {
    pub token: String,
    pub sends: Vec<Outbound>,
}

/// `b` sends `token`, authored by `author`, once to each of `peers`, in order.
pub open spec fn is_broadcast_of(
    b: Broadcast,
    peers: Seq<Seq<char>>,
    token: Seq<char>,
    author: Seq<char>,
) -> bool {
    &&& b.token@ == token
    &&& b.sends.len() == peers.len()
    &&& forall|i: int|
        0 <= i < peers.len() ==> {
            &&& (#[trigger] b.sends[i]).target@ == peers[i]
            &&& b.sends[i].request@ == (RequestView::Gossip { message: token, author })
        }
}

/// How many of `n` ticks send a broadcast, for a broadcaster that starts
/// warmed up or not: by `tick`, a tick broadcasts exactly when the
/// broadcaster is warmed up, and leaves it warmed up.
pub open spec fn broadcasts_in(warmed_up: bool, n: nat) -> nat
    decreases n,
{
    if n == 0 {
        0
    } else {
        (if warmed_up {
            1nat
        } else {
            0nat
        }) + broadcasts_in(true, (n - 1) as nat)
    }
}

/// Relies on ulid::Ulid::new and its `to_string`: a new identifier from the
/// clock and a random source, written in 26 base-32 characters.
#[verifier::external_body]
fn fresh_token() -> (r: String)
    ensures
        r@.len() == 26,
{
    ulid::Ulid::new().to_string()
}

/// The gossip sends of one tick: `token`, authored by `author`, to each of
/// `peers`.
pub fn plan_broadcast(peers: &Vec<String>, token: String, author: &String) -> (r: Broadcast)
    ensures
        is_broadcast_of(r, peers.deep_view(), token@, author@),
{
    let mut sends: Vec<Outbound> = Vec::new();
    let mut i: usize = 0;
    while i < peers.len()
        invariant
            i <= peers.len(),
            sends.len() == i,
            forall|j: int|
                0 <= j < i ==> {
                    &&& (#[trigger] sends[j]).target@ == peers[j]@
                    &&& sends[j].request@ == (RequestView::Gossip {
                        message: token@,
                        author: author@,
                    })
                },
        decreases peers.len() - i,
    {
        sends.push(
            Outbound {
                target: peers[i].clone(),
                request: Request::Gossip { message: token.clone(), author: author.clone() },
            },
        );
        i = i + 1;
    }
    Broadcast { token, sends }
}

impl Broadcaster {
    /// Whether the warm-up tick has passed.
    pub closed spec fn is_warmed_up(&self) -> bool {
        self.warmed_up
    }

    /// The author named in every gossip message.
    pub closed spec fn author(&self) -> Seq<char> {
        self.author@
    }

    /// Seconds between two ticks.
    pub closed spec fn spec_period(&self) -> u16 {
        self.period
    }

    /// A broadcaster for the node at `author` that ticks every `period`
    /// seconds; its first tick will be the warm-up.
    pub fn new(author: String, period: u16) -> (r: Broadcaster)
        requires
            period > 0,
        ensures
            !r.is_warmed_up(),
            r.author() == author@,
            r.spec_period() == period,
    {
        Broadcaster { author, period, warmed_up: false }
    }

    /// Seconds between two ticks.
    pub fn period(&self) -> (r: u16)
        ensures
            r == self.spec_period(),
    {
        self.period
    }

    /// One elapse of the timer, given a snapshot of the registry. The first
    /// tick sends nothing; each later one mints a fresh token and sends it
    /// once to every peer of the snapshot.
    pub fn tick(&mut self, peers: &Vec<String>) -> (r: Option<Broadcast>)
        ensures
            final(self).is_warmed_up(),
            final(self).author() == old(self).author(),
            final(self).spec_period() == old(self).spec_period(),
            r is Some <==> old(self).is_warmed_up(),
            r matches Some(b) ==> b.token@.len() == 26 && is_broadcast_of(
                b,
                peers.deep_view(),
                b.token@,
                old(self).author(),
            ),
    {
        if !self.warmed_up {
            self.warmed_up = true;
            return None;
        }
        let token = fresh_token();
        Some(plan_broadcast(peers, token, &self.author))
    }
}

/// First-tick suppression: of the first `n` ticks of a new broadcaster, none
/// broadcasts when `n` is zero, and exactly `n - 1` do otherwise, one per
/// tick after the warm-up.
pub proof fn lemma_first_tick_suppressed(n: nat)
    ensures
        n == 0 ==> broadcasts_in(false, n) == 0,
        n >= 1 ==> broadcasts_in(false, n) == n - 1,
{
    if n >= 1 {
        lemma_warm_ticks_all_broadcast((n - 1) as nat);
    }
}

/// Once warmed up, every tick broadcasts.
proof fn lemma_warm_ticks_all_broadcast(n: nat)
    ensures
        broadcasts_in(true, n) == n,
    decreases n,
{
    if n > 0 {
        lemma_warm_ticks_all_broadcast((n - 1) as nat);
    }
}

} // verus!
