use vstd::prelude::*;
use crate::ids::Txid;

verus! {

/// The condition a watch on an output script is waiting for, and the best
/// knowledge the engine has about a transaction so far.
///
/// Total order: `Unknown < InMempool < Confirmed(1) < Confirmed(2) < ...`.
/// As an observation, `Confirmed(n)` is the exact depth; as a target it is
/// met by any observation at least as deep, so it doubles as
/// "confirmed at least `n` deep".
#[derive(Clone, Copy, Debug, PartialEq, Eq, Structural)]
pub enum ScriptStatus {
    Unknown,
    InMempool,
    Confirmed(u32),
}

impl ScriptStatus {
    /// Target for a transaction that must be on chain and at least `k` deep.
    pub fn with_confirmations(k: u32) -> (r: ScriptStatus)
        ensures
            r == ScriptStatus::Confirmed(k),
    {
        ScriptStatus::Confirmed(k)
    }

    /// Target for a transaction whose mere appearance matters.
    pub fn in_mempool() -> (r: ScriptStatus)
        ensures
            r == ScriptStatus::InMempool,
    {
        ScriptStatus::InMempool
    }
}

/// The total order on statuses.
pub open spec fn status_le(a: ScriptStatus, b: ScriptStatus) -> bool {
    match (a, b) {
        (ScriptStatus::Unknown, _) => true,
        (ScriptStatus::InMempool, ScriptStatus::Unknown) => false,
        (ScriptStatus::InMempool, _) => true,
        (ScriptStatus::Confirmed(m), ScriptStatus::Confirmed(n)) => m <= n,
        (ScriptStatus::Confirmed(_), _) => false,
    }
}

/// `status_le` totally orders all statuses: it is reflexive, antisymmetric,
/// transitive, and any two statuses are comparable.
pub proof fn lemma_status_total_order(a: ScriptStatus, b: ScriptStatus, c: ScriptStatus)
    ensures
        status_le(a, a),
        status_le(a, b) && status_le(b, a) ==> a == b,
        status_le(a, b) && status_le(b, c) ==> status_le(a, c),
        status_le(a, b) || status_le(b, a),
{
}

/// One row of a script history returned by the indexer: the height the
/// transaction was included at, or `0` for unconfirmed and a negative value
/// for unconfirmed with unconfirmed parents.
#[derive(Clone, Debug, PartialEq, Eq)]
pub struct TxStatus {
    pub height: i32,
    pub txid: Txid,
}

pub ghost struct TxStatusV {
    pub height: i32,
    pub txid: Seq<u8>,
}

impl View for TxStatus {
    type V = TxStatusV;

    open spec fn view(&self) -> TxStatusV {
        TxStatusV { height: self.height, txid: self.txid@ }
    }
}

impl DeepView for TxStatus {
    type V = TxStatusV;

    open spec fn deep_view(&self) -> TxStatusV {
        self.view()
    }
}

/// The status of a transaction included at `height` when the chain tip is
/// `tip`: unconfirmed heights (`<= 0`) and heights beyond the tip count as
/// in-mempool, anything else is confirmed `tip - height + 1` deep.
pub open spec fn status_from_spec(height: i32, tip: u32) -> ScriptStatus {
    if height <= 0 || height > tip {
        ScriptStatus::InMempool
    } else {
        ScriptStatus::Confirmed((tip - height + 1) as u32)
    }
}

/// Derive a status from an observed inclusion height and the current tip.
pub fn status_from(height: i32, tip: u32) -> (r: ScriptStatus)
    ensures
        r == status_from_spec(height, tip),
{
    if height <= 0 {
        ScriptStatus::InMempool
    } else if (height as u32) > tip {
        ScriptStatus::InMempool
    } else {
        ScriptStatus::Confirmed(tip - (height as u32) + 1)
    }
}

/// Whether an observed status meets a target: the watch fires when
/// `observed >= target` in the total order.
pub fn meets_target(observed: &ScriptStatus, target: &ScriptStatus) -> (r: bool)
    ensures
        r == status_le(*target, *observed),
{
    match (target, observed) {
        (ScriptStatus::Unknown, _) => true,
        (ScriptStatus::InMempool, ScriptStatus::Unknown) => false,
        (ScriptStatus::InMempool, _) => true,
        (ScriptStatus::Confirmed(m), ScriptStatus::Confirmed(n)) => *m <= *n,
        (ScriptStatus::Confirmed(_), _) => false,
    }
}

/// The larger of two statuses in the total order.
pub open spec fn status_max(a: ScriptStatus, b: ScriptStatus) -> ScriptStatus {
    if status_le(a, b) {
        b
    } else {
        a
    }
}

/// The best status among the history rows whose txid matches, `Unknown` if
/// none matches.
pub open spec fn best_status_spec(hist: Seq<TxStatusV>, txid: Seq<u8>, tip: u32) -> ScriptStatus
    decreases hist.len(),
{
    if hist.len() == 0 {
        ScriptStatus::Unknown
    } else {
        let rest = best_status_spec(hist.drop_last(), txid, tip);
        if hist.last().txid == txid {
            status_max(rest, status_from_spec(hist.last().height, tip))
        } else {
            rest
        }
    }
}

/// Scan a history for rows matching `txid` and return the best status they
/// witness under tip height `tip`.
pub fn best_status(hist: &Vec<TxStatus>, txid: &Txid, tip: u32) -> (r: ScriptStatus)
    ensures
        r == best_status_spec(hist.deep_view(), txid@, tip),
{
    let mut r = ScriptStatus::Unknown;
    let mut i: usize = 0;
    while i < hist.len()
        invariant
            i <= hist@.len(),
            r == best_status_spec(hist.deep_view().take(i as int), txid@, tip),
        decreases hist@.len() - i,
    {
        proof {
            assert(hist.deep_view().take(i + 1 as int).drop_last() =~= hist.deep_view().take(
                i as int,
            ));
            assert(hist.deep_view().take(i + 1 as int).last() == hist@[i as int]@);
        }
        if crate::ids::bytes_eq(&hist[i].txid.bytes, &txid.bytes) {
            let s = status_from(hist[i].height, tip);
            if meets_target(&s, &r) {
                r = s;
            }
        }
        i += 1;
    }
    proof {
        assert(hist.deep_view().take(hist@.len() as int) =~= hist.deep_view());
    }
    r
}

/// Depth only grows with the tip: with the inclusion height fixed and no
/// reorg (the tip only increases), the derived status never decreases.
pub proof fn lemma_status_from_monotone(height: i32, t1: u32, t2: u32)
    requires
        t1 <= t2,
    ensures
        status_le(status_from_spec(height, t1), status_from_spec(height, t2)),
{
}

/// `best_status_spec` is monotone in the tip for a fixed history: absent
/// reorgs, what a watch observes from the same rows never decreases.
pub proof fn lemma_best_status_monotone(hist: Seq<TxStatusV>, txid: Seq<u8>, t1: u32, t2: u32)
    requires
        t1 <= t2,
    ensures
        status_le(best_status_spec(hist, txid, t1), best_status_spec(hist, txid, t2)),
    decreases hist.len(),
{
    if hist.len() > 0 {
        lemma_best_status_monotone(hist.drop_last(), txid, t1, t2);
        lemma_status_from_monotone(hist.last().height, t1, t2);
    }
}

/// The best status is at least what any single matching row witnesses.
pub proof fn lemma_best_status_ge_row(hist: Seq<TxStatusV>, txid: Seq<u8>, tip: u32, i: int)
    requires
        0 <= i < hist.len(),
        hist[i].txid == txid,
    ensures
        status_le(status_from_spec(hist[i].height, tip), best_status_spec(hist, txid, tip)),
    decreases hist.len(),
{
    lemma_status_total_order(
        status_from_spec(hist[i].height, tip),
        best_status_spec(hist.drop_last(), txid, tip),
        best_status_spec(hist, txid, tip),
    );
    if i < hist.len() - 1 {
        lemma_best_status_ge_row(hist.drop_last(), txid, tip, i);
        lemma_status_total_order(
            status_from_spec(hist[i].height, tip),
            best_status_spec(hist.drop_last(), txid, tip),
            status_from_spec(hist.last().height, tip),
        );
    }
}

/// The best status is `Unknown` or witnessed by some matching row.
pub proof fn lemma_best_status_achieved(hist: Seq<TxStatusV>, txid: Seq<u8>, tip: u32)
    ensures
        best_status_spec(hist, txid, tip) == ScriptStatus::Unknown || exists|i: int|
            0 <= i < hist.len() && hist[i].txid == txid && best_status_spec(hist, txid, tip)
                == status_from_spec(#[trigger] hist[i].height, tip),
    decreases hist.len(),
{
    if hist.len() > 0 {
        lemma_best_status_achieved(hist.drop_last(), txid, tip);
        let rest = best_status_spec(hist.drop_last(), txid, tip);
        if rest != ScriptStatus::Unknown {
            let j = choose|j: int|
                0 <= j < hist.drop_last().len() && hist.drop_last()[j].txid == txid && rest
                    == status_from_spec(hist.drop_last()[j].height, tip);
            assert(hist[j].txid == txid && rest == status_from_spec(hist[j].height, tip));
        }
    }
}

/// No reorg, as one watched script's histories see it: every row of the
/// first history matching the txid persists in the second with the same
/// inclusion height, or was still unconfirmed.
pub open spec fn rows_persist(h1: Seq<TxStatusV>, h2: Seq<TxStatusV>, txid: Seq<u8>) -> bool {
    forall|i: int|
        0 <= i < h1.len() && h1[i].txid == txid ==> exists|j: int|
            0 <= j < h2.len() && (#[trigger] h2[j].txid) == txid && (h2[j].height
                == h1[i].height || h1[i].height <= 0)
}

/// Monotone depth across changing histories: the tip only increases, and
/// every matching row either keeps its inclusion height or was unconfirmed
/// before.  Then the best observed status never decreases — in particular
/// not when an unconfirmed transaction enters a block.
pub proof fn lemma_best_status_monotone_histories(
    h1: Seq<TxStatusV>,
    h2: Seq<TxStatusV>,
    txid: Seq<u8>,
    t1: u32,
    t2: u32,
)
    requires
        t1 <= t2,
        rows_persist(h1, h2, txid),
    ensures
        status_le(best_status_spec(h1, txid, t1), best_status_spec(h2, txid, t2)),
{
    let b1 = best_status_spec(h1, txid, t1);
    let b2 = best_status_spec(h2, txid, t2);
    lemma_best_status_achieved(h1, txid, t1);
    if b1 != ScriptStatus::Unknown {
        let i = choose|i: int|
            0 <= i < h1.len() && h1[i].txid == txid && b1 == status_from_spec(
                #[trigger] h1[i].height,
                t1,
            );
        assert(exists|j: int|
            0 <= j < h2.len() && (#[trigger] h2[j].txid) == txid && (h2[j].height
                == h1[i].height || h1[i].height <= 0));
        let j = choose|j: int|
            0 <= j < h2.len() && (#[trigger] h2[j].txid) == txid && (h2[j].height
                == h1[i].height || h1[i].height <= 0);
        lemma_best_status_ge_row(h2, txid, t2, j);
        if h2[j].height == h1[i].height {
            lemma_status_from_monotone(h1[i].height, t1, t2);
        }
        lemma_status_total_order(b1, status_from_spec(h2[j].height, t2), b2);
    }
}

} // verus!
