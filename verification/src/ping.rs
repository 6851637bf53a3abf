use vstd::prelude::*;
use crate::ids::{bytes_eq, clone_bytes};

verus! {

/// A network peer's identity, as raw multihash bytes.
#[derive(Clone, Debug, PartialEq, Eq)]
pub struct PeerId {
    pub bytes: Vec<u8>,
}

impl View for PeerId {
    type V = Seq<u8>;

    open spec fn view(&self) -> Seq<u8> {
        self.bytes@
    }
}

impl DeepView for PeerId {
    type V = Seq<u8>;

    open spec fn deep_view(&self) -> Seq<u8> {
        self.bytes@
    }
}

/// A copy of a peer id with the same view.
pub fn clone_peer(p: &PeerId) -> (r: PeerId)
    ensures
        r@ == p@,
{
    PeerId { bytes: clone_bytes(&p.bytes) }
}

pub open spec fn peer_keys_unique(s: Seq<(PeerId, u128)>) -> bool {
    forall|i: int, j: int| 0 <= i < j < s.len() ==> s[i].0@ != s[j].0@
}

pub open spec fn peers_unique(s: Seq<Seq<u8>>) -> bool {
    forall|i: int, j: int| 0 <= i < j < s.len() ==> s[i] != s[j]
}

/// The map held by an association list of peer latencies, later pairs
/// taking precedence.
pub open spec fn latency_map(s: Seq<(PeerId, u128)>) -> Map<Seq<u8>, u128>
    decreases s.len(),
{
    if s.len() == 0 {
        Map::empty()
    } else {
        latency_map(s.drop_last()).insert(s.last().0@, s.last().1)
    }
}

proof fn lemma_latency_not_contains(s: Seq<(PeerId, u128)>, k: Seq<u8>)
    requires
        forall|i: int| 0 <= i < s.len() ==> s[i].0@ != k,
    ensures
        !latency_map(s).dom().contains(k),
    decreases s.len(),
{
    if s.len() > 0 {
        lemma_latency_not_contains(s.drop_last(), k);
    }
}

proof fn lemma_latency_update(s: Seq<(PeerId, u128)>, i: int, p: PeerId, v: u128)
    requires
        peer_keys_unique(s),
        0 <= i < s.len(),
        p@ == s[i].0@,
    ensures
        latency_map(s.update(i, (p, v))) == latency_map(s).insert(p@, v),
    decreases s.len(),
{
    let t = s.update(i, (p, v));
    if i == s.len() - 1 {
        assert(t.drop_last() =~= s.drop_last());
        assert(latency_map(t) =~= latency_map(s).insert(p@, v));
    } else {
        assert(t.drop_last() =~= s.drop_last().update(i, (p, v)));
        lemma_latency_update(s.drop_last(), i, p, v);
        assert(p@ != s.last().0@);
        assert(latency_map(t) =~= latency_map(s).insert(p@, v));
    }
}

proof fn lemma_latency_lookup(s: Seq<(PeerId, u128)>, i: int)
    requires
        peer_keys_unique(s),
        0 <= i < s.len(),
    ensures
        latency_map(s).dom().contains(s[i].0@),
        latency_map(s)[s[i].0@] == s[i].1,
    decreases s.len(),
{
    if i < s.len() - 1 {
        lemma_latency_lookup(s.drop_last(), i);
        assert(s.drop_last()[i] == s[i]);
        assert(s[i].0@ != s.last().0@);
    }
}


/// Whether a peer with this identity is in the list.
#[verifier::loop_isolation(false)]
fn contains_peer(list: &Vec<PeerId>, target: &PeerId) -> (r: bool)
    ensures
        r == list.deep_view().contains(target@),
{
    let n = list.len();
    let mut i: usize = 0;
    while i < n
        invariant
            n == list@.len(),
            i <= n,
            forall|k: int| 0 <= k < i ==> list.deep_view()[k] != target@,
        decreases n - i,
    {
        if bytes_eq(&list[i].bytes, &target.bytes) {
            proof {
                assert(list.deep_view()[i as int] == target@);
            }
            return true;
        }
        i += 1;
    }
    proof {
        assert forall|t: int| 0 <= t < list.deep_view().len() implies list.deep_view()[t]
            != target@ by {}
    }
    false
}

/// The ping bookkeeping of the peer-to-peer actor: which peers are
/// connected, and the latency of each peer that answered since the last
/// ping round.
pub struct PeerTracker {
    ping_interval_secs: u64,
    connected: Vec<PeerId>,
    latencies: Vec<(PeerId, u128)>,
}

impl PeerTracker {
    /// Seconds between two ping rounds.
    pub closed spec fn interval_secs(&self) -> u64 {
        self.ping_interval_secs
    }

    /// The connected peers, oldest connection first.
    pub closed spec fn connected(&self) -> Seq<Seq<u8>> {
        self.connected.deep_view()
    }

    /// The latency, in milliseconds, of each peer that answered a ping.
    pub closed spec fn latencies(&self) -> Map<Seq<u8>, u128> {
        latency_map(self.latencies@)
    }

    /// Internal well-formedness: no peer twice.
    pub closed spec fn wf(&self) -> bool {
        peers_unique(self.connected.deep_view()) && peer_keys_unique(self.latencies@)
    }

    /// A tracker that knows no peers yet.
    pub fn new(ping_interval_secs: u64) -> (r: PeerTracker)
        ensures
            r.wf(),
            r.interval_secs() == ping_interval_secs,
            r.connected() == Seq::<Seq<u8>>::empty(),
            r.latencies() == Map::<Seq<u8>, u128>::empty(),
    {
        let r = PeerTracker { ping_interval_secs, connected: Vec::new(), latencies: Vec::new() };
        proof {
            assert(r.connected() =~= Seq::<Seq<u8>>::empty());
        }
        r
    }

    /// Begin a ping round: forget the previous round's latencies and hand
    /// back the peers to ping, in connection order.
    #[verifier::loop_isolation(false)]
    pub fn start_ping_round(&mut self) -> (r: Vec<PeerId>)
        requires
            old(self).wf(),
        ensures
            final(self).wf(),
            final(self).interval_secs() == old(self).interval_secs(),
            final(self).connected() == old(self).connected(),
            final(self).latencies() == Map::<Seq<u8>, u128>::empty(),
            r.deep_view() == old(self).connected(),
    {
        self.latencies = Vec::new();
        let mut r: Vec<PeerId> = Vec::new();
        let n = self.connected.len();
        let mut i: usize = 0;
        while i < n
            invariant
                n == self.connected@.len(),
                i <= n,
                r@.len() == i,
                forall|k: int| 0 <= k < i ==> r@[k]@ == self.connected@[k]@,
                self.connected@ == old(self).connected@,
                self.latencies@ == Seq::<(PeerId, u128)>::empty(),
                self.ping_interval_secs == old(self).ping_interval_secs,
            decreases n - i,
        {
            r.push(clone_peer(&self.connected[i]));
            i += 1;
        }
        proof {
            assert(r.deep_view() =~= old(self).connected());
        }
        r
    }

    /// Record the measured latency of a peer, replacing any earlier record.
    #[verifier::loop_isolation(false)]
    pub fn record_latency(&mut self, peer: PeerId, latency_millis: u128)
        requires
            old(self).wf(),
        ensures
            final(self).wf(),
            final(self).interval_secs() == old(self).interval_secs(),
            final(self).connected() == old(self).connected(),
            final(self).latencies() == old(self).latencies().insert(peer@, latency_millis),
    {
        let n = self.latencies.len();
        let mut i: usize = 0;
        while i < n
            invariant
                n == self.latencies@.len(),
                i <= n,
                forall|k: int| 0 <= k < i ==> self.latencies@[k].0@ != peer@,
                *self == *old(self),
            decreases n - i,
        {
            if bytes_eq(&self.latencies[i].0.bytes, &peer.bytes) {
                proof {
                    lemma_latency_update(self.latencies@, i as int, peer, latency_millis);
                }
                let ghost s0 = self.latencies@;
                self.latencies[i] = (peer, latency_millis);
                proof {
                    assert(self.latencies@ =~= s0.update(i as int, (peer, latency_millis)));
                    assert forall|a: int, b: int|
                        0 <= a < b < self.latencies@.len() implies self.latencies@[a].0@
                        != self.latencies@[b].0@ by {
                        assert(s0[a].0@ != s0[b].0@);
                    }
                }
                return ;
            }
            i += 1;
        }
        proof {
            lemma_latency_not_contains(self.latencies@, peer@);
        }
        let ghost s0 = self.latencies@;
        self.latencies.push((peer, latency_millis));
        proof {
            assert(self.latencies@.drop_last() =~= s0);
        }
    }

    /// The latency recorded for a peer this round, if it answered.
    #[verifier::loop_isolation(false)]
    pub fn get_latency(&self, peer: &PeerId) -> (r: Option<u128>)
        requires
            self.wf(),
        ensures
            (match r {
                Some(ms) => self.latencies().dom().contains(peer@) && self.latencies()[peer@]
                    == ms,
                None => !self.latencies().dom().contains(peer@),
            }),
    {
        let n = self.latencies.len();
        let mut i: usize = 0;
        while i < n
            invariant
                n == self.latencies@.len(),
                i <= n,
                forall|k: int| 0 <= k < i ==> self.latencies@[k].0@ != peer@,
            decreases n - i,
        {
            if bytes_eq(&self.latencies[i].0.bytes, &peer.bytes) {
                proof {
                    lemma_latency_lookup(self.latencies@, i as int);
                }
                return Some(self.latencies[i].1);
            }
            i += 1;
        }
        proof {
            lemma_latency_not_contains(self.latencies@, peer@);
        }
        None
    }

    /// Note peers whose connections were established; a peer already known
    /// stays where it is.
    #[verifier::loop_isolation(false)]
    pub fn connections_established(&mut self, peers: &Vec<PeerId>)
        requires
            old(self).wf(),
        ensures
            final(self).wf(),
            final(self).interval_secs() == old(self).interval_secs(),
            final(self).latencies() == old(self).latencies(),
            final(self).connected() == add_peers(old(self).connected(), peers.deep_view()),
    {
        let n = peers.len();
        let mut i: usize = 0;
        while i < n
            invariant
                n == peers@.len(),
                i <= n,
                self.wf(),
                self.ping_interval_secs == old(self).ping_interval_secs,
                self.latencies@ == old(self).latencies@,
                self.connected() == add_peers(
                    old(self).connected(),
                    peers.deep_view().take(i as int),
                ),
            decreases n - i,
        {
            proof {
                assert(peers.deep_view().take(i + 1 as int) =~= peers.deep_view().take(
                    i as int,
                ).push(peers.deep_view()[i as int]));
                lemma_add_peers_snoc(
                    old(self).connected(),
                    peers.deep_view().take(i as int),
                    peers.deep_view()[i as int],
                );
            }
            let present = contains_peer(&self.connected, &peers[i]);
            if !present {
                let ghost c0 = self.connected.deep_view();
                self.connected.push(clone_peer(&peers[i]));
                proof {
                    assert(self.connected.deep_view() =~= c0.push(peers.deep_view()[i as int]));
                    assert forall|a: int, b: int|
                        0 <= a < b < self.connected.deep_view().len() implies self
                        .connected
                        .deep_view()[a] != self.connected.deep_view()[b] by {
                        if b < self.connected.deep_view().len() - 1 {
                            assert(c0[a] != c0[b]);
                        } else {
                            assert(!c0.contains(self.connected.deep_view()[b]));
                        }
                    }
                }
            }
            i += 1;
        }
        proof {
            assert(peers.deep_view().take(n as int) =~= peers.deep_view());
        }
    }

    /// Forget peers whose connections dropped.
    #[verifier::loop_isolation(false)]
    pub fn connections_dropped(&mut self, peers: &Vec<PeerId>)
        requires
            old(self).wf(),
        ensures
            final(self).wf(),
            final(self).interval_secs() == old(self).interval_secs(),
            final(self).latencies() == old(self).latencies(),
            final(self).connected() == remove_peers(old(self).connected(), peers.deep_view()),
    {
        let ghost c0 = self.connected.deep_view();
        let mut kept: Vec<PeerId> = Vec::new();
        let n = self.connected.len();
        let mut i: usize = 0;
        while i < n
            invariant
                n == self.connected@.len(),
                self.connected.deep_view() == c0,
                i <= n,
                self.wf(),
                kept.deep_view() == remove_peers(c0.take(i as int), peers.deep_view()),
            decreases n - i,
        {
            proof {
                assert(c0.take(i + 1 as int).drop_last() =~= c0.take(i as int));
                assert(c0.take(i + 1 as int).last() == c0[i as int]);
            }
            let present = contains_peer(peers, &self.connected[i]);
            proof {
                assert(present == peers.deep_view().contains(c0[i as int]));
            }
            if !present {
                let ghost k0 = kept.deep_view();
                kept.push(clone_peer(&self.connected[i]));
                proof {
                    assert(kept.deep_view() =~= k0.push(c0[i as int]));
                }
            }
            i += 1;
        }
        proof {
            assert(c0.take(n as int) =~= c0);
        }
        self.connected = kept;
        proof {
            lemma_remove_peers_props(c0, peers.deep_view());
        }
    }
}

/// Removing a batch of peers from a set kept in order: the peers named in
/// `ps` leave, the rest keep their order.
pub open spec fn remove_peers(s: Seq<Seq<u8>>, ps: Seq<Seq<u8>>) -> Seq<Seq<u8>>
    decreases s.len(),
{
    if s.len() == 0 {
        s
    } else {
        let rest = remove_peers(s.drop_last(), ps);
        if ps.contains(s.last()) {
            rest
        } else {
            rest.push(s.last())
        }
    }
}

proof fn lemma_remove_peers_props(s: Seq<Seq<u8>>, ps: Seq<Seq<u8>>)
    ensures
        forall|x: Seq<u8>| #[trigger] remove_peers(s, ps).contains(x) ==> s.contains(x),
        peers_unique(s) ==> peers_unique(remove_peers(s, ps)),
    decreases s.len(),
{
    if s.len() > 0 {
        lemma_remove_peers_props(s.drop_last(), ps);
        let rest = remove_peers(s.drop_last(), ps);
        let r = remove_peers(s, ps);
        assert forall|x: Seq<u8>| #[trigger] r.contains(x) implies s.contains(x) by {
            if rest.contains(x) {
                assert(s.drop_last().contains(x));
                let t = choose|t: int| 0 <= t < s.drop_last().len() && s.drop_last()[t] == x;
                assert(s[t] == x);
            } else {
                let i = choose|i: int| 0 <= i < r.len() && r[i] == x;
                assert(!ps.contains(s.last()) && i == r.len() - 1 && x == s.last());
                assert(s[s.len() - 1] == x);
            }
        }
        if peers_unique(s) {
            assert(peers_unique(s.drop_last()));
            if !ps.contains(s.last()) {
                assert(!s.drop_last().contains(s.last())) by {
                    if s.drop_last().contains(s.last()) {
                        let t = choose|t: int|
                            0 <= t < s.drop_last().len() && s.drop_last()[t] == s.last();
                        assert(s[t] == s[s.len() - 1]);
                    }
                }
                assert forall|a: int, b: int| 0 <= a < b < r.len() implies r[a] != r[b] by {
                    if b == r.len() - 1 {
                        assert(r[b] == s.last());
                        assert(rest.contains(r[a]));
                        assert(s.drop_last().contains(r[a]));
                    } else {
                        assert(rest[a] != rest[b]);
                    }
                }
            }
        }
    }
}

/// Adding a batch of peers to a set kept in order: each peer not yet present
/// is appended, first arrival first.
pub open spec fn add_peers(s: Seq<Seq<u8>>, ps: Seq<Seq<u8>>) -> Seq<Seq<u8>>
    decreases ps.len(),
{
    if ps.len() == 0 {
        s
    } else {
        add_peers(
            if s.contains(ps[0]) {
                s
            } else {
                s.push(ps[0])
            },
            ps.drop_first(),
        )
    }
}

proof fn lemma_add_peers_snoc(s: Seq<Seq<u8>>, ps: Seq<Seq<u8>>, p: Seq<u8>)
    ensures
        add_peers(s, ps.push(p)) == (if add_peers(s, ps).contains(p) {
            add_peers(s, ps)
        } else {
            add_peers(s, ps).push(p)
        }),
    decreases ps.len(),
{
    if ps.len() == 0 {
        assert(ps.push(p).drop_first() =~= Seq::<Seq<u8>>::empty());
        assert(ps.push(p)[0] == p);
        let s1 = if s.contains(p) { s } else { s.push(p) };
        assert(add_peers(s, ps.push(p)) == add_peers(s1, ps.push(p).drop_first()));
        assert(add_peers(s1, ps.push(p).drop_first()) == s1);
        assert(add_peers(s, ps) == s);
    } else {
        assert(ps.push(p).drop_first() =~= ps.drop_first().push(p));
        assert(ps.push(p)[0] == ps[0]);
        assert(add_peers(s, ps.push(p)) == add_peers(
            if s.contains(ps[0]) { s } else { s.push(ps[0]) },
            ps.drop_first().push(p),
        ));
        lemma_add_peers_snoc(
            if s.contains(ps[0]) {
                s
            } else {
                s.push(ps[0])
            },
            ps.drop_first(),
            p,
        );
    }
}

/// Milliseconds to whole seconds, as the latency histogram records them.
pub fn latency_seconds(latency_millis: u128) -> (r: u128)
    ensures
        r == latency_millis / 1000,
{
    latency_millis / 1000
}

} // verus!
