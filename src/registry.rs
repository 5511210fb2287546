use vstd::prelude::*;

verus! {

broadcast use vstd::std_specs::vec::vec_clone_deep_view_proof;

/// The ordered list of peer addresses a node knows about.
///
/// Insertion order is kept and duplicates are allowed; nothing is ever
/// removed. Callers that share a registry between tasks hold it behind a
/// lock, so each operation below is one critical section.
#[derive(Clone)]
pub struct PeerRegistry {
    peers: Vec<String>,
}

impl View for PeerRegistry {
    type V = Seq<Seq<char>>;

    closed spec fn view(&self) -> Seq<Seq<char>> {
        self.peers.deep_view()
    }
}

/// The registry's contents after appending `addrs`, in order, to `start`.
pub open spec fn replay(start: Seq<Seq<char>>, addrs: Seq<Seq<char>>) -> Seq<Seq<char>>
    decreases addrs.len(),
{
    if addrs.len() == 0 {
        start
    } else {
        replay(start, addrs.drop_last()).push(addrs.last())
    }
}

impl PeerRegistry {
    /// An empty registry.
    pub fn new() -> (r: PeerRegistry)
        ensures
            r@ == Seq::<Seq<char>>::empty(),
    {
        PeerRegistry { peers: Vec::new() }
    }

    /// Number of entries, duplicates included.
    pub fn len(&self) -> (r: usize)
        ensures
            r == self@.len(),
    {
        self.peers.len()
    }

    /// A copy of the current contents.
    pub fn snapshot(&self) -> (r: Vec<String>)
        ensures
            r.deep_view() == self@,
    {
        self.peers.clone()
    }

    /// Returns the contents as they were, then appends `address`.
    pub fn snapshot_and_append(&mut self, address: String) -> (r: Vec<String>)
        ensures
            r.deep_view() == old(self)@,
            final(self)@ == old(self)@.push(address@),
    {
        let before = self.peers.clone();
        self.peers.push(address);
        proof {
            assert(self.peers.deep_view() =~= old(self)@.push(address@));
        }
        before
    }

    /// Appends every address of `addrs`, in order.
    pub fn extend(&mut self, addrs: &Vec<String>)
        ensures
            final(self)@ == old(self)@ + addrs.deep_view(),
    {
        let mut i: usize = 0;
        while i < addrs.len()
            invariant
                i <= addrs.len(),
                self@ == old(self)@ + addrs.deep_view().take(i as int),
            decreases addrs.len() - i,
        {
            let a = addrs[i].clone();
            let ghost prev = self.peers.deep_view();
            self.peers.push(a);
            i = i + 1;
            proof {
                assert(a@ == addrs.deep_view()[i - 1]);
                assert(self.peers.deep_view() =~= prev.push(a@));
                assert(self.peers.deep_view() =~= old(self)@ + addrs.deep_view().take(i as int));
            }
        }
        proof {
            assert(addrs.deep_view().take(i as int) =~= addrs.deep_view());
        }
    }
}

/// Appends applied one after another, as the lock serialises them, lose no
/// update: after `addrs` the registry is `start` followed by `addrs`, it has
/// grown by exactly one entry per append, and the append at position `i` saw
/// `start` followed by the addresses appended before it.
pub proof fn lemma_appends_linearize(start: Seq<Seq<char>>, addrs: Seq<Seq<char>>)
    ensures
        replay(start, addrs) == start + addrs,
        replay(start, addrs).len() == start.len() + addrs.len(),
        forall|i: int|
            0 <= i < addrs.len() ==> #[trigger] replay(start, addrs.take(i)) == start
                + addrs.take(i),
{
    lemma_replay_prefix(start, addrs);
    assert forall|i: int| 0 <= i < addrs.len() implies #[trigger] replay(start, addrs.take(i))
        == start + addrs.take(i) by {
        lemma_replay_prefix(start, addrs.take(i));
    }
}

proof fn lemma_replay_prefix(start: Seq<Seq<char>>, addrs: Seq<Seq<char>>)
    ensures
        replay(start, addrs) == start + addrs,
    decreases addrs.len(),
{
    if addrs.len() > 0 {
        lemma_replay_prefix(start, addrs.drop_last());
        assert(start + addrs =~= (start + addrs.drop_last()).push(addrs.last()));
    } else {
        assert(start + addrs =~= start);
    }
}

} // verus!
