use vstd::prelude::*;
use crate::ids::{clone_locator, locator_eq, Event, TxLocator, TxLocatorV};
use crate::status::{
    best_status, best_status_spec, meets_target, status_le, ScriptStatus, TxStatus, TxStatusV,
};

verus! {

/// What the engine waits for: a locator to watch, the status that satisfies
/// the watch, and the event to emit when it does.
#[derive(Clone, Debug)]
pub struct Watch {
    pub locator: TxLocator,
    pub target: ScriptStatus,
    pub fires: Event,
}

pub ghost struct WatchV {
    pub locator: TxLocatorV,
    pub target: ScriptStatus,
    pub fires: Event,
}

impl View for Watch {
    type V = WatchV;

    open spec fn view(&self) -> WatchV {
        WatchV { locator: self.locator@, target: self.target, fires: self.fires }
    }
}

/// A registered watch together with its emission flag.  Watches whose event
/// has fired are retained inert, so that re-registration cannot re-fire them.
struct WatchEntry {
    watch: Watch,
    fired: bool,
}

pub ghost struct EntryV {
    pub watch: WatchV,
    pub fired: bool,
}

/// The confirmation engine: given the current tip height and freshly fetched
/// script histories, decides which watches have fired.
pub struct Engine {
    latest_tip: u32,
    watches: Vec<WatchEntry>,
    last_observed: Vec<(TxLocator, ScriptStatus)>,
}

pub open spec fn keys_unique(s: Seq<(TxLocator, ScriptStatus)>) -> bool {
    forall|i: int, j: int| 0 <= i < j < s.len() ==> s[i].0@ != s[j].0@
}

/// The map held by an association list, later pairs taking precedence.
pub open spec fn assoc_map(s: Seq<(TxLocator, ScriptStatus)>) -> Map<TxLocatorV, ScriptStatus>
    decreases s.len(),
{
    if s.len() == 0 {
        Map::empty()
    } else {
        assoc_map(s.drop_last()).insert(s.last().0@, s.last().1)
    }
}

proof fn lemma_assoc_not_contains(s: Seq<(TxLocator, ScriptStatus)>, k: TxLocatorV)
    requires
        forall|i: int| 0 <= i < s.len() ==> s[i].0@ != k,
    ensures
        !assoc_map(s).dom().contains(k),
    decreases s.len(),
{
    if s.len() > 0 {
        lemma_assoc_not_contains(s.drop_last(), k);
    }
}

proof fn lemma_assoc_lookup(s: Seq<(TxLocator, ScriptStatus)>, i: int)
    requires
        keys_unique(s),
        0 <= i < s.len(),
    ensures
        assoc_map(s).dom().contains(s[i].0@),
        assoc_map(s)[s[i].0@] == s[i].1,
    decreases s.len(),
{
    if i < s.len() - 1 {
        lemma_assoc_lookup(s.drop_last(), i);
        assert(s.drop_last()[i] == s[i]);
        assert(s[i].0@ != s.last().0@);
    }
}

proof fn lemma_assoc_update(
    s: Seq<(TxLocator, ScriptStatus)>,
    i: int,
    loc: TxLocator,
    v: ScriptStatus,
)
    requires
        keys_unique(s),
        0 <= i < s.len(),
        loc@ == s[i].0@,
    ensures
        assoc_map(s.update(i, (loc, v))) == assoc_map(s).insert(loc@, v),
    decreases s.len(),
{
    let t = s.update(i, (loc, v));
    if i == s.len() - 1 {
        assert(t.drop_last() =~= s.drop_last());
        assert(assoc_map(t) =~= assoc_map(s).insert(loc@, v));
    } else {
        assert(t.drop_last() =~= s.drop_last().update(i, (loc, v)));
        lemma_assoc_update(s.drop_last(), i, loc, v);
        assert(loc@ != s.last().0@);
        assert(assoc_map(t) =~= assoc_map(s).insert(loc@, v));
    }
}

impl Engine {
    /// The height of the chain tip as of the most recent update.
    pub closed spec fn tip(&self) -> u32 {
        self.latest_tip
    }

    /// The registered watches, in registration order, with their emission
    /// flags.
    pub closed spec fn entries(&self) -> Seq<EntryV> {
        Seq::new(
            self.watches@.len(),
            |j: int|
                EntryV { watch: self.watches@[j].watch@, fired: self.watches@[j].fired },
        )
    }

    /// The best status observed so far for each locator whose script has been
    /// answered by the indexer.
    pub closed spec fn observed(&self) -> Map<TxLocatorV, ScriptStatus> {
        assoc_map(self.last_observed@)
    }

    /// Internal well-formedness: one record per locator.
    pub closed spec fn wf(&self) -> bool {
        keys_unique(self.last_observed@)
    }

    /// A fresh engine knowing only the current tip height.
    pub fn new(initial_tip: u32) -> (r: Engine)
        ensures
            r.wf(),
            r.tip() == initial_tip,
            r.entries() == Seq::<EntryV>::empty(),
            r.observed() == Map::<TxLocatorV, ScriptStatus>::empty(),
    {
        let r = Engine { latest_tip: initial_tip, watches: Vec::new(), last_observed: Vec::new() };
        proof {
            assert(r.entries() =~= Seq::<EntryV>::empty());
        }
        r
    }

    /// Record the best status observed for a locator, replacing any earlier
    /// record for the same locator.
    #[verifier::loop_isolation(false)]
    fn set_observed(&mut self, loc: TxLocator, st: ScriptStatus)
        requires
            old(self).wf(),
        ensures
            final(self).wf(),
            final(self).observed() == old(self).observed().insert(loc@, st),
            final(self).watches@ == old(self).watches@,
            final(self).entries() == old(self).entries(),
            final(self).tip() == old(self).tip(),
    {
        let n = self.last_observed.len();
        let mut i: usize = 0;
        while i < n
            invariant
                n == self.last_observed@.len(),
                i <= n,
                forall|k: int| 0 <= k < i ==> self.last_observed@[k].0@ != loc@,
                self.wf(),
                self.observed() == old(self).observed(),
                self.watches@ == old(self).watches@,
                self.entries() == old(self).entries(),
                self.tip() == old(self).tip(),
                self.last_observed@ == old(self).last_observed@,
            decreases n - i,
        {
            if locator_eq(&self.last_observed[i].0, &loc) {
                proof {
                    lemma_assoc_update(self.last_observed@, i as int, loc, st);
                }
                let ghost s0 = self.last_observed@;
                self.last_observed[i] = (loc, st);
                proof {
                    assert(self.last_observed@ =~= s0.update(i as int, (loc, st)));
                    assert forall|a: int, b: int|
                        0 <= a < b < self.last_observed@.len() implies self.last_observed@[a].0@
                        != self.last_observed@[b].0@ by {
                        assert(s0[a].0@ != s0[b].0@);
                    }
                }
                return ;
            }
            i += 1;
        }
        proof {
            lemma_assoc_not_contains(self.last_observed@, loc@);
        }
        let ghost s0 = self.last_observed@;
        self.last_observed.push((loc, st));
        proof {
            assert(self.last_observed@.drop_last() =~= s0);
            assert forall|a: int, b: int|
                0 <= a < b < self.last_observed@.len() implies self.last_observed@[a].0@
                != self.last_observed@[b].0@ by {
            }
        }
    }

    /// The best status recorded for a locator so far, if its script has ever
    /// been answered.
    #[verifier::loop_isolation(false)]
    pub fn last_observed_status(&self, loc: &TxLocator) -> (r: Option<ScriptStatus>)
        requires
            self.wf(),
        ensures
            (match r {
                Some(st) => self.observed().dom().contains(loc@) && self.observed()[loc@] == st,
                None => !self.observed().dom().contains(loc@),
            }),
    {
        let n = self.last_observed.len();
        let mut i: usize = 0;
        while i < n
            invariant
                n == self.last_observed@.len(),
                i <= n,
                forall|k: int| 0 <= k < i ==> self.last_observed@[k].0@ != loc@,
            decreases n - i,
        {
            if locator_eq(&self.last_observed[i].0, loc) {
                proof {
                    lemma_assoc_lookup(self.last_observed@, i as int);
                }
                return Some(self.last_observed[i].1);
            }
            i += 1;
        }
        proof {
            lemma_assoc_not_contains(self.last_observed@, loc@);
        }
        None
    }

    /// How many watches are registered (fired ones included, kept inert).
    pub fn num_monitoring(&self) -> (r: usize)
        ensures
            r == self.entries().len(),
    {
        self.watches.len()
    }

    /// The scripts the engine wants histories for: one per registered watch,
    /// in registration order.  Scripts shared by several watches appear once
    /// per watch; `update` expects its histories aligned with this list.
    #[verifier::loop_isolation(false)]
    pub fn monitoring_scripts(&self) -> (r: Vec<crate::ids::Script>)
        ensures
            r@.len() == self.entries().len(),
            forall|j: int|
                0 <= j < r@.len() ==> r@[j]@ == self.entries()[j].watch.locator.script,
    {
        let mut r: Vec<crate::ids::Script> = Vec::new();
        let n = self.watches.len();
        let mut i: usize = 0;
        while i < n
            invariant
                n == self.entries().len(),
                n == self.watches@.len(),
                i <= n,
                r@.len() == i,
                forall|j: int|
                    0 <= j < i ==> r@[j]@ == self.entries()[j].watch.locator.script,
            decreases n - i,
        {
            r.push(crate::ids::clone_script(&self.watches[i].watch.locator.script));
            i += 1;
        }
        r
    }
}

/// Whether a watch equal to `w` is already registered.
pub open spec fn has_watch(entries: Seq<EntryV>, w: WatchV) -> bool {
    exists|j: int| 0 <= j < entries.len() && entries[j].watch == w
}

/// Registration: a no-op when the same watch already exists, otherwise the
/// watch is appended, unfired.
pub open spec fn register_spec(entries: Seq<EntryV>, w: WatchV) -> Seq<EntryV> {
    if has_watch(entries, w) {
        entries
    } else {
        entries.push(EntryV { watch: w, fired: false })
    }
}

impl Engine {
    /// Register a watch: when `locator` reaches `target`, emit `fires`.
    /// Registering the same `(locator, target, fires)` again is a no-op, also
    /// after the watch has fired.
    #[verifier::loop_isolation(false)]
    pub fn monitor(&mut self, locator: TxLocator, target: ScriptStatus, fires: Event)
        requires
            old(self).wf(),
        ensures
            final(self).wf(),
            final(self).entries() == register_spec(
                old(self).entries(),
                WatchV { locator: locator@, target, fires },
            ),
            final(self).tip() == old(self).tip(),
            final(self).observed() == old(self).observed(),
    {
        let ghost w = (WatchV { locator: locator@, target: target, fires: fires });
        let n = self.watches.len();
        let mut i: usize = 0;
        while i < n
            invariant
                n == self.entries().len(),
                n == self.watches@.len(),
                i <= n,
                w == (WatchV { locator: locator@, target: target, fires: fires }),
                *self == *old(self),
                forall|k: int| 0 <= k < i ==> self.entries()[k].watch != w,
            decreases n - i,
        {
            let same = locator_eq(&self.watches[i].watch.locator, &locator)
                && self.watches[i].watch.target == target && self.watches[i].watch.fires == fires;
            if same {
                proof {
                    assert(self.entries()[i as int].watch == w);
                    assert(has_watch(self.entries(), w));
                }
                return ;
            }
            proof {
                assert(self.entries()[i as int].watch != w);
            }
            i += 1;
        }
        proof {
            assert(!has_watch(self.entries(), w));
        }
        let ghost e0 = self.entries();
        self.watches.push(WatchEntry { watch: Watch { locator, target, fires }, fired: false });
        proof {
            assert(self.entries() =~= e0.push(EntryV { watch: w, fired: false }));
        }
    }
}

/// Whether the watch at index `j` fires in an update that sees `hist` at tip
/// height `tip`: it has not fired before, its script was answered, and the
/// best status observed for its txid meets its target.
pub open spec fn fires_now(
    entries: Seq<EntryV>,
    hist: Seq<Seq<TxStatusV>>,
    tip: u32,
    j: int,
) -> bool {
    &&& 0 <= j < entries.len()
    &&& !entries[j].fired
    &&& j < hist.len()
    &&& status_le(
        entries[j].watch.target,
        best_status_spec(hist[j], entries[j].watch.locator.txid, tip),
    )
}

/// The watch entries after an update: same watches, and the emission flag of
/// every watch that fires in this update is set.
pub open spec fn entries_after_spec(
    entries: Seq<EntryV>,
    hist: Seq<Seq<TxStatusV>>,
    tip: u32,
) -> Seq<EntryV> {
    Seq::new(
        entries.len(),
        |j: int|
            EntryV {
                watch: entries[j].watch,
                fired: entries[j].fired || fires_now(entries, hist, tip, j),
            },
    )
}

/// The events emitted by the watches at indices below `n`, in registration
/// order.
pub open spec fn emitted_upto(
    entries: Seq<EntryV>,
    hist: Seq<Seq<TxStatusV>>,
    tip: u32,
    n: int,
) -> Seq<Event>
    decreases n,
{
    if n <= 0 {
        Seq::empty()
    } else {
        emitted_upto(entries, hist, tip, n - 1) + (if fires_now(entries, hist, tip, n - 1) {
            seq![entries[n - 1].watch.fires]
        } else {
            Seq::empty()
        })
    }
}

/// All events emitted by one update, in registration order.
pub open spec fn emitted_spec(entries: Seq<EntryV>, hist: Seq<Seq<TxStatusV>>, tip: u32) -> Seq<
    Event,
> {
    emitted_upto(entries, hist, tip, entries.len() as int)
}

/// The observation map after the watches at indices below `n` have been
/// processed: each watch whose script was answered records the best status
/// seen for its locator; the rest keep their old record.
pub open spec fn observed_upto(
    m: Map<TxLocatorV, ScriptStatus>,
    entries: Seq<EntryV>,
    hist: Seq<Seq<TxStatusV>>,
    tip: u32,
    n: int,
) -> Map<TxLocatorV, ScriptStatus>
    decreases n,
{
    if n <= 0 {
        m
    } else {
        let prev = observed_upto(m, entries, hist, tip, n - 1);
        if n - 1 < hist.len() && n - 1 < entries.len() {
            prev.insert(
                entries[n - 1].watch.locator,
                best_status_spec(hist[n - 1], entries[n - 1].watch.locator.txid, tip),
            )
        } else {
            prev
        }
    }
}

/// The observation map after one full update.
pub open spec fn observed_after_spec(
    m: Map<TxLocatorV, ScriptStatus>,
    entries: Seq<EntryV>,
    hist: Seq<Seq<TxStatusV>>,
    tip: u32,
) -> Map<TxLocatorV, ScriptStatus> {
    observed_upto(m, entries, hist, tip, entries.len() as int)
}

impl Engine {
    /// The core transition.  `histories` is the batched indexer response, one
    /// entry per script in the order of `monitoring_scripts()`; it may be
    /// shorter than that list (timeouts, per-script failures), and the
    /// missing tail leaves the corresponding observations unchanged and fires
    /// nothing.  Returns the events of the watches that fire, in registration
    /// order; each watch fires at most once over the engine's lifetime.
    #[verifier::loop_isolation(false)]
    pub fn update(&mut self, new_tip: u32, histories: &Vec<Vec<TxStatus>>) -> (r: Vec<Event>)
        requires
            old(self).wf(),
        ensures
            final(self).wf(),
            final(self).tip() == new_tip,
            final(self).entries() == entries_after_spec(
                old(self).entries(),
                histories.deep_view(),
                new_tip,
            ),
            r@ == emitted_spec(old(self).entries(), histories.deep_view(), new_tip),
            final(self).observed() == observed_after_spec(
                old(self).observed(),
                old(self).entries(),
                histories.deep_view(),
                new_tip,
            ),
    {
        let ghost e0 = old(self).entries();
        let ghost m0 = old(self).observed();
        let ghost hv = histories.deep_view();
        self.latest_tip = new_tip;
        let mut out: Vec<Event> = Vec::new();
        let n = self.watches.len();
        let mut j: usize = 0;
        while j < n
            invariant
                n == e0.len(),
                self.watches@.len() == n,
                j <= n,
                self.wf(),
                self.tip() == new_tip,
                forall|k: int|
                    0 <= k < j ==> self.entries()[k] == entries_after_spec(e0, hv, new_tip)[k],
                forall|k: int| j <= k < n ==> self.entries()[k] == e0[k],
                out@ == emitted_upto(e0, hv, new_tip, j as int),
                self.observed() == observed_upto(m0, e0, hv, new_tip, j as int),
            decreases n - j,
        {
            let ghost epre = self.entries();
            if j < histories.len() {
                let loc = clone_locator(&self.watches[j].watch.locator);
                let ghost locv = loc@;
                proof {
                    assert(self.entries()[j as int] == e0[j as int]);
                    assert(locv == e0[j as int].watch.locator);
                    assert(hv[j as int] == histories@[j as int].deep_view());
                }
                let obs = best_status(&histories[j], &loc.txid, new_tip);
                self.set_observed(loc, obs);
                proof {
                    assert(self.observed() == observed_upto(m0, e0, hv, new_tip, j + 1 as int));
                }
                let fire = !self.watches[j].fired && meets_target(
                    &obs,
                    &self.watches[j].watch.target,
                );
                proof {
                    assert(fire == fires_now(e0, hv, new_tip, j as int));
                }
                if fire {
                    let ev = self.watches[j].watch.fires;
                    out.push(ev);
                    self.watches[j].fired = true;
                    proof {
                        assert forall|k: int| 0 <= k < n && k != j implies self.entries()[k]
                            == epre[k] by {
                        }
                        assert(self.entries()[j as int] == entries_after_spec(e0, hv, new_tip)[
                            j as int
                        ]);
                        assert(out@ =~= emitted_upto(e0, hv, new_tip, j + 1 as int));
                    }
                } else {
                    proof {
                        assert(self.entries() == epre);
                        assert(self.entries()[j as int] == entries_after_spec(e0, hv, new_tip)[
                            j as int
                        ]);
                        assert(out@ =~= emitted_upto(e0, hv, new_tip, j + 1 as int));
                    }
                }
            } else {
                proof {
                    assert(!fires_now(e0, hv, new_tip, j as int));
                    assert(self.entries()[j as int] == entries_after_spec(e0, hv, new_tip)[
                        j as int
                    ]);
                    assert(out@ =~= emitted_upto(e0, hv, new_tip, j + 1 as int));
                    assert(self.observed() == observed_upto(m0, e0, hv, new_tip, j + 1 as int));
                }
            }
            proof {
                assert forall|k: int| 0 <= k < j implies self.entries()[k] == entries_after_spec(
                    e0,
                    hv,
                    new_tip,
                )[k] by {
                    assert(self.entries()[k] == epre[k]);
                    assert(epre[k] == entries_after_spec(e0, hv, new_tip)[k]);
                }
            }
            j += 1;
        }
        proof {
            assert(self.entries() =~= entries_after_spec(e0, hv, new_tip));
        }
        out
    }
}

/// Registering a list of watches, first to last.
pub open spec fn register_all(entries: Seq<EntryV>, ws: Seq<WatchV>) -> Seq<EntryV>
    decreases ws.len(),
{
    if ws.len() == 0 {
        entries
    } else {
        register_all(register_spec(entries, ws[0]), ws.drop_first())
    }
}

/// Registering the same watch `n` times in a row.
pub open spec fn register_n(entries: Seq<EntryV>, w: WatchV, n: nat) -> Seq<EntryV>
    decreases n,
{
    if n == 0 {
        entries
    } else {
        register_spec(register_n(entries, w, (n - 1) as nat), w)
    }
}

/// Idempotent registration: registering a watch that is already present
/// changes nothing.
pub proof fn lemma_register_idempotent(entries: Seq<EntryV>, w: WatchV)
    ensures
        register_spec(register_spec(entries, w), w) == register_spec(entries, w),
{
    if !has_watch(entries, w) {
        let e1 = entries.push(EntryV { watch: w, fired: false });
        assert(e1[entries.len() as int].watch == w);
        assert(has_watch(e1, w));
    }
}

/// Calling `monitor` with the same `(locator, target, fires)` any number of
/// times (at least once) leaves the engine exactly as one call does.
pub proof fn lemma_register_n_times(entries: Seq<EntryV>, w: WatchV, n: nat)
    requires
        n >= 1,
    ensures
        register_n(entries, w, n) == register_spec(entries, w),
    decreases n,
{
    if n == 1 {
        assert(register_n(entries, w, 0nat) == entries);
    } else {
        lemma_register_n_times(entries, w, (n - 1) as nat);
        lemma_register_idempotent(entries, w);
    }
}

/// How many of the watches at indices below `n` fire in this update.
pub open spec fn fired_count_upto(
    entries: Seq<EntryV>,
    hist: Seq<Seq<TxStatusV>>,
    tip: u32,
    n: int,
) -> nat
    decreases n,
{
    if n <= 0 {
        0
    } else {
        fired_count_upto(entries, hist, tip, n - 1) + (if fires_now(entries, hist, tip, n - 1) {
            1nat
        } else {
            0nat
        })
    }
}

proof fn lemma_emitted_len(entries: Seq<EntryV>, hist: Seq<Seq<TxStatusV>>, tip: u32, n: int)
    ensures
        emitted_upto(entries, hist, tip, n).len() == fired_count_upto(entries, hist, tip, n),
    decreases n,
{
    if n > 0 {
        lemma_emitted_len(entries, hist, tip, n - 1);
    }
}

proof fn lemma_emitted_at(entries: Seq<EntryV>, hist: Seq<Seq<TxStatusV>>, tip: u32, j: int, n: int)
    requires
        fires_now(entries, hist, tip, j),
        j < n,
    ensures
        fired_count_upto(entries, hist, tip, j) < fired_count_upto(entries, hist, tip, n),
        emitted_upto(entries, hist, tip, n)[fired_count_upto(entries, hist, tip, j) as int]
            == entries[j].watch.fires,
    decreases n,
{
    if n == j + 1 {
        lemma_emitted_len(entries, hist, tip, j);
        let e = emitted_upto(entries, hist, tip, j);
        assert(emitted_upto(entries, hist, tip, n) == e + seq![entries[j].watch.fires]);
        assert((e + seq![entries[j].watch.fires])[e.len() as int] == entries[j].watch.fires);
    } else {
        lemma_emitted_at(entries, hist, tip, j, n - 1);
        lemma_emitted_len(entries, hist, tip, n - 1);
        let e = emitted_upto(entries, hist, tip, n - 1);
        let c = fired_count_upto(entries, hist, tip, j) as int;
        if fires_now(entries, hist, tip, n - 1) {
            assert(emitted_upto(entries, hist, tip, n) == e + seq![entries[n - 1].watch.fires]);
            assert((e + seq![entries[n - 1].watch.fires])[c] == e[c]);
        } else {
            assert(emitted_upto(entries, hist, tip, n) == e + Seq::<Event>::empty());
            assert((e + Seq::<Event>::empty())[c] == e[c]);
        }
    }
}

/// Registration-order emission: when the watches at indices `j1 < j2` both
/// fire in one update, the event of `j1` stands before the event of `j2` in
/// the returned list — each at the position counting the firing watches
/// registered before it.
pub proof fn lemma_registration_order_emission(
    entries: Seq<EntryV>,
    hist: Seq<Seq<TxStatusV>>,
    tip: u32,
    j1: int,
    j2: int,
)
    requires
        j1 < j2,
        fires_now(entries, hist, tip, j1),
        fires_now(entries, hist, tip, j2),
    ensures
        fired_count_upto(entries, hist, tip, j1) < fired_count_upto(entries, hist, tip, j2),
        fired_count_upto(entries, hist, tip, j2) < emitted_spec(entries, hist, tip).len(),
        emitted_spec(entries, hist, tip)[fired_count_upto(entries, hist, tip, j1) as int]
            == entries[j1].watch.fires,
        emitted_spec(entries, hist, tip)[fired_count_upto(entries, hist, tip, j2) as int]
            == entries[j2].watch.fires,
{
    lemma_emitted_at(entries, hist, tip, j1, j2);
    lemma_emitted_at(entries, hist, tip, j1, entries.len() as int);
    lemma_emitted_at(entries, hist, tip, j2, entries.len() as int);
    lemma_emitted_len(entries, hist, tip, entries.len() as int);
}

/// One update step of a whole run, as it acts on the watch entries.
pub ghost struct UpdateInput {
    pub tip: u32,
    pub hist: Seq<Seq<TxStatusV>>,
}

/// How often the watch at index `j` fires over a whole run of updates.
pub open spec fn emission_count(entries: Seq<EntryV>, inputs: Seq<UpdateInput>, j: int) -> nat
    decreases inputs.len(),
{
    if inputs.len() == 0 {
        0
    } else {
        (if fires_now(entries, inputs[0].hist, inputs[0].tip, j) {
            1nat
        } else {
            0nat
        }) + emission_count(
            entries_after_spec(entries, inputs[0].hist, inputs[0].tip),
            inputs.drop_first(),
            j,
        )
    }
}

/// At-most-once firing: across any sequence of updates, any single watch
/// fires at most once, and a watch whose flag is already set never fires
/// again.  (Two distinct watches may carry equal events; the count here is
/// per watch, which is the stronger statement.)
pub proof fn lemma_at_most_once_firing(entries: Seq<EntryV>, inputs: Seq<UpdateInput>, j: int)
    requires
        0 <= j < entries.len(),
    ensures
        emission_count(entries, inputs, j) <= 1,
        entries[j].fired ==> emission_count(entries, inputs, j) == 0,
    decreases inputs.len(),
{
    if inputs.len() > 0 {
        let e1 = entries_after_spec(entries, inputs[0].hist, inputs[0].tip);
        assert(e1[j] == EntryV {
            watch: entries[j].watch,
            fired: entries[j].fired || fires_now(entries, inputs[0].hist, inputs[0].tip, j),
        });
        lemma_at_most_once_firing(e1, inputs.drop_first(), j);
    }
}

/// The index of the last watch below `n` whose script was answered and whose
/// locator is `k`, or `-1` when there is none.
pub open spec fn last_match(entries: Seq<EntryV>, hlen: int, k: TxLocatorV, n: int) -> int
    decreases n,
{
    if n <= 0 {
        -1
    } else if n - 1 < hlen && entries[n - 1].watch.locator == k {
        n - 1
    } else {
        last_match(entries, hlen, k, n - 1)
    }
}

proof fn lemma_observed_characterize(
    m: Map<TxLocatorV, ScriptStatus>,
    entries: Seq<EntryV>,
    hist: Seq<Seq<TxStatusV>>,
    tip: u32,
    k: TxLocatorV,
    n: int,
)
    requires
        0 <= n <= entries.len(),
    ensures
        ({
            let lm = last_match(entries, hist.len() as int, k, n);
            let m1 = observed_upto(m, entries, hist, tip, n);
            &&& lm == -1 ==> m1.dom().contains(k) == m.dom().contains(k) && (m.dom().contains(k)
                ==> m1[k] == m[k])
            &&& lm >= 0 ==> m1.dom().contains(k) && entries[lm].watch.locator == k && m1[k]
                == best_status_spec(hist[lm], entries[lm].watch.locator.txid, tip)
        }),
    decreases n,
{
    if n > 0 {
        lemma_observed_characterize(m, entries, hist, tip, k, n - 1);
    }
}

proof fn lemma_last_match_bound(entries: Seq<EntryV>, hlen: int, k: TxLocatorV, n: int)
    requires
        0 <= n,
    ensures
        -1 <= last_match(entries, hlen, k, n) < n,
        last_match(entries, hlen, k, n) >= 0 ==> last_match(entries, hlen, k, n) < hlen,
    decreases n,
{
    if n > 0 {
        lemma_last_match_bound(entries, hlen, k, n - 1);
    }
}

proof fn lemma_last_match_same(
    entries: Seq<EntryV>,
    others: Seq<EntryV>,
    hlen: int,
    k: TxLocatorV,
    n: int,
)
    requires
        entries.len() == others.len(),
        n <= entries.len(),
        forall|i: int| 0 <= i < entries.len() ==> entries[i].watch == others[i].watch,
    ensures
        last_match(entries, hlen, k, n) == last_match(others, hlen, k, n),
    decreases n,
{
    if n > 0 {
        assert(entries[n - 1].watch == others[n - 1].watch);
        lemma_last_match_same(entries, others, hlen, k, n - 1);
    }
}

/// Monotone depth: over two successive updates in which the tip only
/// increases and, script by script, every history row matching the watched
/// txid either keeps its inclusion height or was unconfirmed before, the
/// recorded observation of a locator never decreases.  In particular an
/// unconfirmed transaction entering a block only raises it.
pub proof fn lemma_monotone_depth(
    m0: Map<TxLocatorV, ScriptStatus>,
    entries: Seq<EntryV>,
    h1: Seq<Seq<TxStatusV>>,
    h2: Seq<Seq<TxStatusV>>,
    t1: u32,
    t2: u32,
    k: TxLocatorV,
)
    requires
        t1 <= t2,
        h1.len() == h2.len(),
        forall|j: int|
            0 <= j < entries.len() && j < h1.len() ==> crate::status::rows_persist(
                #[trigger] h1[j],
                h2[j],
                entries[j].watch.locator.txid,
            ),
    ensures
        ({
            let m1 = observed_after_spec(m0, entries, h1, t1);
            let e1 = entries_after_spec(entries, h1, t1);
            let m2 = observed_after_spec(m1, e1, h2, t2);
            m1.dom().contains(k) ==> m2.dom().contains(k) && status_le(m1[k], m2[k])
        }),
{
    let m1 = observed_after_spec(m0, entries, h1, t1);
    let e1 = entries_after_spec(entries, h1, t1);
    let m2 = observed_after_spec(m1, e1, h2, t2);
    let n = entries.len() as int;
    assert(e1.len() == entries.len());
    assert(forall|i: int| 0 <= i < entries.len() ==> e1[i].watch == entries[i].watch);
    lemma_observed_characterize(m0, entries, h1, t1, k, n);
    lemma_observed_characterize(m1, e1, h2, t2, k, n);
    lemma_last_match_same(entries, e1, h1.len() as int, k, n);
    lemma_last_match_bound(entries, h1.len() as int, k, n);
    let lm = last_match(entries, h1.len() as int, k, n);
    if m1.dom().contains(k) {
        if lm >= 0 {
            assert(e1[lm].watch == entries[lm].watch);
            assert(entries[lm].watch.locator.txid == k.txid);
            crate::status::lemma_best_status_monotone_histories(h1[lm], h2[lm], k.txid, t1, t2);
            assert(m1[k] == best_status_spec(h1[lm], k.txid, t1));
            assert(m2[k] == best_status_spec(h2[lm], k.txid, t2));
        } else {
            crate::status::lemma_status_total_order(m1[k], m1[k], m1[k]);
        }
    }
}

} // verus!
