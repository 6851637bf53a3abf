use vstd::prelude::*;
use crate::ids::{clone_script, Script};
use crate::status::{TxStatus, TxStatusV};

verus! {

/// How many scripts one worker queries sequentially.
pub const BATCH_SIZE: usize = 25;

/// How many seconds the collector waits for each response before returning
/// what it has.
pub const SCRIPT_GET_HISTORY_RESPONSE_TIMEOUT_SECS: u64 = 10;

/// The connect and request timeout of the indexer client, in seconds.
pub const ELECTRUM_CLIENT_TIMEOUT_SECS: u8 = 120;

/// The scripts of chunk `i`, when a script list is cut into chunks of
/// `BATCH_SIZE`.
pub open spec fn chunk_of(s: Seq<Seq<u8>>, i: int) -> Seq<Seq<u8>> {
    s.subrange(
        i * (BATCH_SIZE as int),
        if (i + 1) * (BATCH_SIZE as int) <= s.len() {
            (i + 1) * (BATCH_SIZE as int)
        } else {
            s.len() as int
        },
    )
}

/// Cut a script list into the per-worker batches: chunks of `BATCH_SIZE` in
/// order, the last one possibly shorter.  Their concatenation is the input.
#[verifier::loop_isolation(false)]
pub fn chunk_scripts(scripts: &Vec<Script>) -> (r: Vec<Vec<Script>>)
    ensures
        r@.len() == (scripts@.len() + BATCH_SIZE - 1) / (BATCH_SIZE as int),
        forall|i: int|
            0 <= i < r@.len() ==> r@[i].deep_view() == chunk_of(scripts.deep_view(), i),
{
    let mut r: Vec<Vec<Script>> = Vec::new();
    let n = scripts.len();
    let mut start: usize = 0;
    while start < n
        invariant
            n == scripts@.len(),
            start <= n,
            start == r@.len() * BATCH_SIZE,
            forall|i: int|
                0 <= i < r@.len() ==> r@[i].deep_view() == chunk_of(scripts.deep_view(), i),
        decreases n - start,
    {
        let end = if n - start >= BATCH_SIZE {
            start + BATCH_SIZE
        } else {
            n
        };
        let mut chunk: Vec<Script> = Vec::new();
        let mut k: usize = start;
        while k < end
            invariant
                start <= k <= end <= n,
                chunk@.len() == k - start,
                forall|t: int| 0 <= t < chunk@.len() ==> chunk@[t]@ == scripts@[start + t]@,
            decreases end - k,
        {
            chunk.push(clone_script(&scripts[k]));
            k += 1;
        }
        proof {
            assert(chunk.deep_view() =~= chunk_of(scripts.deep_view(), r@.len() as int));
        }
        r.push(chunk);
        if end == n && end % BATCH_SIZE != 0 {
            proof {
                assert(r@.len() == (n + BATCH_SIZE - 1) / (BATCH_SIZE as int));
            }
            return r;
        }
        start = end;
    }
    proof {
        assert(r@.len() == (n + BATCH_SIZE - 1) / (BATCH_SIZE as int));
    }
    r
}

/// What the collector can see while draining the response channel.
pub enum FetchEvent {
    /// One script's history arrived.
    Response(Vec<TxStatus>),
    /// All workers are done and dropped their senders.
    Closed,
    /// No response within the per-item timeout: give up on the rest.
    TimedOut,
}

/// What the collector does next.
#[derive(Clone, Copy, Debug, PartialEq, Eq, Structural)]
pub enum FetchAction {
    Continue,
    Stop,
}

/// The collector of a batched history fetch: it drains responses until the
/// channel closes or a response times out, then hands over whatever arrived
/// — possibly fewer histories than scripts, never more than one per
/// response.
pub struct Collector {
    expected: usize,
    received: Vec<Vec<TxStatus>>,
}

impl Collector {
    /// How many scripts were dispatched to the workers.
    pub closed spec fn expected(&self) -> int {
        self.expected as int
    }

    /// The histories collected so far, in arrival order.
    pub closed spec fn received(&self) -> Seq<Seq<TxStatusV>> {
        self.received.deep_view()
    }

    /// A collector that has seen nothing yet of the `expected` scripts.
    pub fn new(expected: usize) -> (r: Collector)
        ensures
            r.expected() == expected,
            r.received() == Seq::<Seq<TxStatusV>>::empty(),
    {
        let r = Collector { expected, received: Vec::new() };
        proof {
            assert(r.received() =~= Seq::<Seq<TxStatusV>>::empty());
        }
        r
    }

    /// One step of the drain loop: keep a response and go on; stop on a
    /// closed channel or a timeout.
    pub fn step(&mut self, ev: FetchEvent) -> (r: FetchAction)
        ensures
            final(self).expected() == old(self).expected(),
            (match ev {
                FetchEvent::Response(h) => final(self).received() == old(self).received().push(
                    h.deep_view(),
                ) && r == FetchAction::Continue,
                FetchEvent::Closed | FetchEvent::TimedOut => final(self).received() == old(
                    self,
                ).received() && r == FetchAction::Stop,
            }),
    {
        match ev {
            FetchEvent::Response(h) => {
                let ghost hv = h.deep_view();
                let ghost r0 = self.received.deep_view();
                self.received.push(h);
                proof {
                    assert(self.received.deep_view() =~= r0.push(hv));
                }
                FetchAction::Continue
            },
            FetchEvent::Closed => FetchAction::Stop,
            FetchEvent::TimedOut => FetchAction::Stop,
        }
    }

    /// The collected histories, for the engine to consume.
    pub fn into_histories(self) -> (r: Vec<Vec<TxStatus>>)
        ensures
            r.deep_view() == self.received(),
    {
        self.received
    }
}

/// The histories a collector holds after it has consumed `evs`, stopping at
/// the first close or timeout.
pub open spec fn run_received(c: Seq<Seq<TxStatusV>>, evs: Seq<FetchEvent>) -> Seq<Seq<TxStatusV>>
    decreases evs.len(),
{
    if evs.len() == 0 {
        c
    } else {
        match evs[0] {
            FetchEvent::Response(h) => run_received(c.push(h.deep_view()), evs.drop_first()),
            FetchEvent::Closed | FetchEvent::TimedOut => c,
        }
    }
}

/// How many responses arrive before the collector stops.
pub open spec fn responses_before_stop(evs: Seq<FetchEvent>) -> nat
    decreases evs.len(),
{
    if evs.len() == 0 {
        0
    } else {
        match evs[0] {
            FetchEvent::Response(_) => 1 + responses_before_stop(evs.drop_first()),
            FetchEvent::Closed | FetchEvent::TimedOut => 0,
        }
    }
}

proof fn lemma_collector_count(c0: Seq<Seq<TxStatusV>>, evs: Seq<FetchEvent>)
    ensures
        run_received(c0, evs).len() == c0.len() + responses_before_stop(evs),
    decreases evs.len(),
{
    if evs.len() > 0 {
        match evs[0] {
            FetchEvent::Response(h) => {
                lemma_collector_count(c0.push(h.deep_view()), evs.drop_first());
            },
            FetchEvent::Closed | FetchEvent::TimedOut => {},
        }
    }
}

/// Batch completeness bound: each script contributes at most one response,
/// so a fetch over `n` scripts returns at most `n` histories; and when every
/// script's response arrives before the channel closes or times out, it
/// returns exactly `n`.
pub proof fn lemma_batch_completeness_bound(evs: Seq<FetchEvent>, n: int)
    requires
        responses_before_stop(evs) <= n,
    ensures
        run_received(Seq::<Seq<TxStatusV>>::empty(), evs).len() <= n,
        responses_before_stop(evs) == n ==> run_received(Seq::<Seq<TxStatusV>>::empty(), evs).len()
            == n,
{
    lemma_collector_count(Seq::<Seq<TxStatusV>>::empty(), evs);
}

} // verus!
