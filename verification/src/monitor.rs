use vstd::prelude::*;
use crate::engine::{register_all, register_spec, Engine, EntryV, WatchV};
use crate::ids::{Event, OrderId, Script, TransactionKind, TxLocator, TxLocatorV, Txid};
use crate::projection::{Cfd, CfdV, CommitV, Dlc, LockV, RefundV, RevokedCommitV, Tx,
    TransactionsAfterContractSetup, TransactionsAfterRollover};
use crate::status::ScriptStatus;

verus! {

/// Confirmations that make the lock transaction final.
pub const LOCK_FINALITY_CONFIRMATIONS: u32 = 1;

/// Confirmations that make a collaborative-close transaction final.
pub const CLOSE_FINALITY_CONFIRMATIONS: u32 = 3;

/// Confirmations that make the commit transaction final.
pub const COMMIT_FINALITY_CONFIRMATIONS: u32 = 1;

/// Confirmations that make a CET final.
pub const CET_FINALITY_CONFIRMATIONS: u32 = 3;

/// Confirmations that make the refund transaction final.
pub const REFUND_FINALITY_CONFIRMATIONS: u32 = 3;

/// Seconds between two periodic syncs.
pub const SYNC_INTERVAL_SECS: u64 = 20;

/// The periodic-sync message.
#[derive(Clone, Copy, Debug)]
pub struct Sync;

/// Ask the broadcaster to publish a transaction.
#[derive(Debug)]
pub struct TryBroadcastTransaction {
    pub tx: Tx,
    pub kind: TransactionKind,
}

/// Start watching the transaction family of a freshly set up contract.
pub struct MonitorAfterContractSetup {
    pub order_id: OrderId,
    pub transactions: TransactionsAfterContractSetup,
}

impl MonitorAfterContractSetup {
    pub fn new(order_id: OrderId, dlc: &Dlc) -> (r: Self)
        ensures
            r.order_id == order_id,
            r.transactions.lock@ == crate::projection::lock_of_dlc(*dlc),
            r.transactions.commit@ == crate::projection::commit_of_dlc(*dlc),
            r.transactions.refund@ == crate::projection::refund_of_dlc(*dlc),
    {
        MonitorAfterContractSetup {
            order_id,
            transactions: TransactionsAfterContractSetup::new(dlc),
        }
    }
}

/// Start watching the transaction family of a rolled-over contract.
pub struct MonitorAfterRollover {
    pub order_id: OrderId,
    pub transactions: TransactionsAfterRollover,
}

impl MonitorAfterRollover {
    pub fn new(order_id: OrderId, dlc: &Dlc) -> (r: Self)
        ensures
            r.order_id == order_id,
            r.transactions.commit@ == crate::projection::commit_of_dlc(*dlc),
            r.transactions.refund@ == crate::projection::refund_of_dlc(*dlc),
            r.transactions.revoked_commits.deep_view() == dlc.revoked_commits.deep_view(),
    {
        MonitorAfterRollover { order_id, transactions: TransactionsAfterRollover::new(dlc) }
    }
}

/// Start watching a collaborative-settlement transaction.
pub struct MonitorCollaborativeSettlement {
    pub order_id: OrderId,
    pub tx: (Txid, Script),
}

/// Start watching a CET for finality.
pub struct MonitorCetFinality {
    pub order_id: OrderId,
    pub cet: Tx,
}

/// The watch for lock finality.
pub open spec fn lock_watch(id: OrderId, l: LockV) -> WatchV {
    WatchV {
        locator: TxLocatorV { txid: l.txid, script: l.script },
        target: ScriptStatus::Confirmed(LOCK_FINALITY_CONFIRMATIONS),
        fires: Event::LockFinality(id),
    }
}

/// The watch for commit finality.
pub open spec fn commit_watch(id: OrderId, c: CommitV) -> WatchV {
    WatchV {
        locator: TxLocatorV { txid: c.txid, script: c.script },
        target: ScriptStatus::Confirmed(COMMIT_FINALITY_CONFIRMATIONS),
        fires: Event::CommitFinality(id),
    }
}

/// The watch for the CET timelock on the commit transaction.
pub open spec fn cet_timelock_watch(id: OrderId, c: CommitV, cet_timelock: u32) -> WatchV {
    WatchV {
        locator: TxLocatorV { txid: c.txid, script: c.script },
        target: ScriptStatus::Confirmed(cet_timelock),
        fires: Event::CetTimelockExpired(id),
    }
}

/// The watch for the refund timelock on the commit transaction.
pub open spec fn refund_timelock_watch(id: OrderId, c: CommitV, refund_timelock: u32) -> WatchV {
    WatchV {
        locator: TxLocatorV { txid: c.txid, script: c.script },
        target: ScriptStatus::Confirmed(refund_timelock),
        fires: Event::RefundTimelockExpired(id),
    }
}

/// The watch for refund finality.
pub open spec fn refund_watch(id: OrderId, r: RefundV) -> WatchV {
    WatchV {
        locator: TxLocatorV { txid: r.txid, script: r.script },
        target: ScriptStatus::Confirmed(REFUND_FINALITY_CONFIRMATIONS),
        fires: Event::RefundFinality(id),
    }
}

/// The watch for close finality on a `(txid, script)` pair.
pub open spec fn close_watch(id: OrderId, txid: Seq<u8>, script: Seq<u8>) -> WatchV {
    WatchV {
        locator: TxLocatorV { txid: txid, script: script },
        target: ScriptStatus::Confirmed(CLOSE_FINALITY_CONFIRMATIONS),
        fires: Event::CloseFinality(id),
    }
}

/// The watch for CET finality on a `(txid, script)` pair.
pub open spec fn cet_watch(id: OrderId, txid: Seq<u8>, script: Seq<u8>) -> WatchV {
    WatchV {
        locator: TxLocatorV { txid: txid, script: script },
        target: ScriptStatus::Confirmed(CET_FINALITY_CONFIRMATIONS),
        fires: Event::CetFinality(id),
    }
}

/// The watch for a revoked commit: any sighting is adversarial.
pub open spec fn revoked_watch(id: OrderId, r: RevokedCommitV) -> WatchV {
    WatchV {
        locator: TxLocatorV { txid: r.txid, script: r.script },
        target: ScriptStatus::InMempool,
        fires: Event::RevokedTransactionFound(id),
    }
}

/// The watches for a whole revoked-commit list, in list order.
pub open spec fn revoked_watches(id: OrderId, rs: Seq<RevokedCommitV>) -> Seq<WatchV> {
    Seq::new(rs.len(), |i: int| revoked_watch(id, rs[i]))
}

/// Register the lock-finality watch.
pub fn monitor_lock_finality(state: &mut Engine, order_id: OrderId, lock: &crate::projection::Lock)
    requires
        old(state).wf(),
    ensures
        final(state).wf(),
        final(state).entries() == register_spec(old(state).entries(), lock_watch(order_id, lock@)),
        final(state).tip() == old(state).tip(),
        final(state).observed() == old(state).observed(),
{
    state.monitor(
        TxLocator {
            txid: crate::ids::clone_txid(&lock.txid),
            script: crate::ids::clone_script(&lock.descriptor_script),
        },
        ScriptStatus::with_confirmations(LOCK_FINALITY_CONFIRMATIONS),
        Event::LockFinality(order_id),
    );
}

/// Register the commit-finality watch.
pub fn monitor_commit_finality(
    state: &mut Engine,
    order_id: OrderId,
    commit: &crate::projection::Commit,
)
    requires
        old(state).wf(),
    ensures
        final(state).wf(),
        final(state).entries() == register_spec(
            old(state).entries(),
            commit_watch(order_id, commit@),
        ),
        final(state).tip() == old(state).tip(),
        final(state).observed() == old(state).observed(),
{
    state.monitor(
        TxLocator {
            txid: crate::ids::clone_txid(&commit.txid),
            script: crate::ids::clone_script(&commit.descriptor_script),
        },
        ScriptStatus::with_confirmations(COMMIT_FINALITY_CONFIRMATIONS),
        Event::CommitFinality(order_id),
    );
}

/// Register the close-finality watch.
pub fn monitor_close_finality(
    state: &mut Engine,
    order_id: OrderId,
    close_params: &(Txid, Script),
)
    requires
        old(state).wf(),
    ensures
        final(state).wf(),
        final(state).entries() == register_spec(
            old(state).entries(),
            close_watch(order_id, close_params.0@, close_params.1@),
        ),
        final(state).tip() == old(state).tip(),
        final(state).observed() == old(state).observed(),
{
    state.monitor(
        TxLocator {
            txid: crate::ids::clone_txid(&close_params.0),
            script: crate::ids::clone_script(&close_params.1),
        },
        ScriptStatus::with_confirmations(CLOSE_FINALITY_CONFIRMATIONS),
        Event::CloseFinality(order_id),
    );
}

/// Register the CET-finality watch.
pub fn monitor_cet_finality(state: &mut Engine, order_id: OrderId, close_params: &(Txid, Script))
    requires
        old(state).wf(),
    ensures
        final(state).wf(),
        final(state).entries() == register_spec(
            old(state).entries(),
            cet_watch(order_id, close_params.0@, close_params.1@),
        ),
        final(state).tip() == old(state).tip(),
        final(state).observed() == old(state).observed(),
{
    state.monitor(
        TxLocator {
            txid: crate::ids::clone_txid(&close_params.0),
            script: crate::ids::clone_script(&close_params.1),
        },
        ScriptStatus::with_confirmations(CET_FINALITY_CONFIRMATIONS),
        Event::CetFinality(order_id),
    );
}

/// Register the CET-timelock watch on the commit transaction.  The timelock
/// is the `CET_TIMELOCK` constant of the contract model, supplied by the
/// caller.
pub fn monitor_commit_cet_timelock(
    state: &mut Engine,
    order_id: OrderId,
    commit: &crate::projection::Commit,
    cet_timelock: u32,
)
    requires
        old(state).wf(),
    ensures
        final(state).wf(),
        final(state).entries() == register_spec(
            old(state).entries(),
            cet_timelock_watch(order_id, commit@, cet_timelock),
        ),
        final(state).tip() == old(state).tip(),
        final(state).observed() == old(state).observed(),
{
    state.monitor(
        TxLocator {
            txid: crate::ids::clone_txid(&commit.txid),
            script: crate::ids::clone_script(&commit.descriptor_script),
        },
        ScriptStatus::with_confirmations(cet_timelock),
        Event::CetTimelockExpired(order_id),
    );
}

/// Register the refund-timelock watch on the commit transaction.
pub fn monitor_commit_refund_timelock(
    state: &mut Engine,
    order_id: OrderId,
    commit: &crate::projection::Commit,
    refund_timelock: u32,
)
    requires
        old(state).wf(),
    ensures
        final(state).wf(),
        final(state).entries() == register_spec(
            old(state).entries(),
            refund_timelock_watch(order_id, commit@, refund_timelock),
        ),
        final(state).tip() == old(state).tip(),
        final(state).observed() == old(state).observed(),
{
    state.monitor(
        TxLocator {
            txid: crate::ids::clone_txid(&commit.txid),
            script: crate::ids::clone_script(&commit.descriptor_script),
        },
        ScriptStatus::with_confirmations(refund_timelock),
        Event::RefundTimelockExpired(order_id),
    );
}

/// Register the refund-finality watch.
pub fn monitor_refund_finality(
    state: &mut Engine,
    order_id: OrderId,
    refund: &crate::projection::Refund,
)
    requires
        old(state).wf(),
    ensures
        final(state).wf(),
        final(state).entries() == register_spec(
            old(state).entries(),
            refund_watch(order_id, refund@),
        ),
        final(state).tip() == old(state).tip(),
        final(state).observed() == old(state).observed(),
{
    state.monitor(
        TxLocator {
            txid: crate::ids::clone_txid(&refund.txid),
            script: crate::ids::clone_script(&refund.script_pubkey),
        },
        ScriptStatus::with_confirmations(REFUND_FINALITY_CONFIRMATIONS),
        Event::RefundFinality(order_id),
    );
}

/// Folding `register_all` from the left takes one watch off the end.
proof fn lemma_register_all_snoc(entries: Seq<EntryV>, ws: Seq<WatchV>, w: WatchV)
    ensures
        register_all(entries, ws.push(w)) == register_spec(register_all(entries, ws), w),
    decreases ws.len(),
{
    if ws.len() == 0 {
        assert(ws.push(w).drop_first() =~= Seq::<WatchV>::empty());
        assert(ws.push(w)[0] == w);
        assert(register_all(entries, ws.push(w)) == register_all(
            register_spec(entries, w),
            ws.push(w).drop_first(),
        ));
        assert(register_all(register_spec(entries, w), ws.push(w).drop_first())
            == register_spec(entries, w));
        assert(register_all(entries, ws) == entries);
    } else {
        assert(ws.push(w).drop_first() =~= ws.drop_first().push(w));
        assert(ws.push(w)[0] == ws[0]);
        assert(register_all(entries, ws.push(w)) == register_all(
            register_spec(entries, ws[0]),
            ws.drop_first().push(w),
        ));
        lemma_register_all_snoc(register_spec(entries, ws[0]), ws.drop_first(), w);
    }
}

/// Register one revoked-commit watch per list entry, in list order.
#[verifier::loop_isolation(false)]
pub fn monitor_revoked_commit_transactions(
    state: &mut Engine,
    order_id: OrderId,
    revoked: &Vec<crate::projection::RevokedCommit>,
)
    requires
        old(state).wf(),
    ensures
        final(state).wf(),
        final(state).entries() == register_all(
            old(state).entries(),
            revoked_watches(order_id, revoked.deep_view()),
        ),
        final(state).tip() == old(state).tip(),
        final(state).observed() == old(state).observed(),
{
    let ghost plan = revoked_watches(order_id, revoked.deep_view());
    let n = revoked.len();
    let mut i: usize = 0;
    while i < n
        invariant
            n == revoked@.len(),
            i <= n,
            state.wf(),
            state.tip() == old(state).tip(),
            state.observed() == old(state).observed(),
            state.entries() == register_all(old(state).entries(), plan.take(i as int)),
        decreases n - i,
    {
        let ghost epre = state.entries();
        state.monitor(
            TxLocator {
                txid: crate::ids::clone_txid(&revoked[i].txid),
                script: crate::ids::clone_script(&revoked[i].script_pubkey),
            },
            ScriptStatus::in_mempool(),
            Event::RevokedTransactionFound(order_id),
        );
        proof {
            assert(plan.take(i + 1 as int) =~= plan.take(i as int).push(plan[i as int]));
            lemma_register_all_snoc(old(state).entries(), plan.take(i as int), plan[i as int]);
            assert(state.entries() == register_all(
                old(state).entries(),
                plan.take(i + 1 as int),
            ));
        }
        i += 1;
    }
    proof {
        assert(plan.take(n as int) =~= plan);
    }
}

/// The watches registered after contract setup: lock finality, commit
/// finality, the two commit timelocks, and refund finality, in that order.
pub open spec fn after_contract_setup_spec(
    entries: Seq<EntryV>,
    id: OrderId,
    l: LockV,
    c: CommitV,
    r: RefundV,
    cet_timelock: u32,
) -> Seq<EntryV> {
    register_spec(
        register_spec(
            register_spec(
                register_spec(register_spec(entries, lock_watch(id, l)), commit_watch(id, c)),
                cet_timelock_watch(id, c, cet_timelock),
            ),
            refund_timelock_watch(id, c, r.timelock),
        ),
        refund_watch(id, r),
    )
}

/// Register the watches of a freshly set up contract.  The CET timelock is
/// the contract model's constant, supplied by the caller.
pub fn handle_monitor_after_contract_setup(
    state: &mut Engine,
    msg: &MonitorAfterContractSetup,
    cet_timelock: u32,
)
    requires
        old(state).wf(),
    ensures
        final(state).wf(),
        final(state).entries() == after_contract_setup_spec(
            old(state).entries(),
            msg.order_id,
            msg.transactions.lock@,
            msg.transactions.commit@,
            msg.transactions.refund@,
            cet_timelock,
        ),
        final(state).tip() == old(state).tip(),
        final(state).observed() == old(state).observed(),
{
    monitor_lock_finality(state, msg.order_id, &msg.transactions.lock);
    monitor_commit_finality(state, msg.order_id, &msg.transactions.commit);
    monitor_commit_cet_timelock(state, msg.order_id, &msg.transactions.commit, cet_timelock);
    monitor_commit_refund_timelock(
        state,
        msg.order_id,
        &msg.transactions.commit,
        msg.transactions.refund.timelock,
    );
    monitor_refund_finality(state, msg.order_id, &msg.transactions.refund);
}

/// The watches registered after a rollover: the commit trio, refund
/// finality, and one watch per revoked commit, in that order.
pub open spec fn after_rollover_spec(
    entries: Seq<EntryV>,
    id: OrderId,
    c: CommitV,
    r: RefundV,
    revoked: Seq<RevokedCommitV>,
    cet_timelock: u32,
) -> Seq<EntryV> {
    register_all(
        register_spec(
            register_spec(
                register_spec(register_spec(entries, commit_watch(id, c)), cet_timelock_watch(id, c, cet_timelock)),
                refund_timelock_watch(id, c, r.timelock),
            ),
            refund_watch(id, r),
        ),
        revoked_watches(id, revoked),
    )
}

/// Register the watches of a rolled-over contract.
pub fn handle_monitor_after_rollover(
    state: &mut Engine,
    msg: &MonitorAfterRollover,
    cet_timelock: u32,
)
    requires
        old(state).wf(),
    ensures
        final(state).wf(),
        final(state).entries() == after_rollover_spec(
            old(state).entries(),
            msg.order_id,
            msg.transactions.commit@,
            msg.transactions.refund@,
            msg.transactions.revoked_commits.deep_view(),
            cet_timelock,
        ),
        final(state).tip() == old(state).tip(),
        final(state).observed() == old(state).observed(),
{
    monitor_commit_finality(state, msg.order_id, &msg.transactions.commit);
    monitor_commit_cet_timelock(state, msg.order_id, &msg.transactions.commit, cet_timelock);
    monitor_commit_refund_timelock(
        state,
        msg.order_id,
        &msg.transactions.commit,
        msg.transactions.refund.timelock,
    );
    monitor_refund_finality(state, msg.order_id, &msg.transactions.refund);
    monitor_revoked_commit_transactions(
        state,
        msg.order_id,
        &msg.transactions.revoked_commits,
    );
}

/// Register the close-finality watch of a collaborative settlement.
pub fn handle_collaborative_settlement(state: &mut Engine, msg: &MonitorCollaborativeSettlement)
    requires
        old(state).wf(),
    ensures
        final(state).wf(),
        final(state).entries() == register_spec(
            old(state).entries(),
            close_watch(msg.order_id, msg.tx.0@, msg.tx.1@),
        ),
        final(state).tip() == old(state).tip(),
        final(state).observed() == old(state).observed(),
{
    monitor_close_finality(state, msg.order_id, &msg.tx);
}

/// What can go wrong inside the monitor itself.
#[derive(Clone, Copy, Debug, PartialEq, Eq, Structural)]
pub enum MonitorError {
    /// A CET cannot be watched by its first output because it has none.
    CetWithoutOutputs,
}

impl MonitorError {
    /// A short description of the error.
    pub fn message(&self) -> (r: &'static str)
        ensures
            r@ == "no outputs in CET"@,
    {
        "no outputs in CET"
    }
}

/// Register the CET-finality watch by the CET's first output; a CET without
/// outputs is an error and registers nothing.
pub fn handle_monitor_cet_finality(state: &mut Engine, msg: &MonitorCetFinality) -> (r: Result<
    (),
    MonitorError,
>)
    requires
        old(state).wf(),
    ensures
        final(state).wf(),
        final(state).tip() == old(state).tip(),
        final(state).observed() == old(state).observed(),
        msg.cet@.outputs.len() == 0 ==> (r matches Err(MonitorError::CetWithoutOutputs))
            && final(state).entries() == old(state).entries(),
        msg.cet@.outputs.len() > 0 ==> (r matches Ok(_)) && final(state).entries()
            == register_spec(
            old(state).entries(),
            cet_watch(msg.order_id, msg.cet@.txid, msg.cet@.outputs[0]),
        ),
{
    match crate::projection::cet_txid_and_script(&msg.cet) {
        None => Err(MonitorError::CetWithoutOutputs),
        Some(p) => {
            monitor_cet_finality(state, msg.order_id, &p);
            Ok(())
        },
    }
}

/// The watches a restored record asks for, per its guards: lock finality;
/// then, around the commit transaction, commit finality and the two
/// timelocks; refund finality; every revoked commit; close finality; CET
/// finality — in that order.
pub open spec fn reinit_spec(entries: Seq<EntryV>, c: CfdV, cet_timelock: u32) -> Seq<EntryV> {
    let e1 = match c.lock {
        Some(l) => if c.monitor_lock_finality {
            register_spec(entries, lock_watch(c.id, l))
        } else {
            entries
        },
        None => entries,
    };
    let e2 = match c.commit {
        Some(cm) => {
            let a = if c.monitor_commit_finality {
                register_spec(e1, commit_watch(c.id, cm))
            } else {
                e1
            };
            let b = if c.monitor_cet_timelock {
                register_spec(a, cet_timelock_watch(c.id, cm, cet_timelock))
            } else {
                a
            };
            match c.refund {
                Some(rf) => if c.monitor_refund_timelock {
                    register_spec(b, refund_timelock_watch(c.id, cm, rf.timelock))
                } else {
                    b
                },
                None => b,
            }
        },
        None => e1,
    };
    let e3 = match c.refund {
        Some(rf) => if c.monitor_refund_finality {
            register_spec(e2, refund_watch(c.id, rf))
        } else {
            e2
        },
        None => e2,
    };
    let e4 = register_all(e3, revoked_watches(c.id, c.monitor_revoked_commit_transactions));
    let e5 = match c.collaborative_settlement {
        Some(cs) => if c.monitor_collaborative_settlement_finality {
            register_spec(e4, close_watch(c.id, cs.0, cs.1))
        } else {
            e4
        },
        None => e4,
    };
    match c.cet {
        Some(ct) => if c.monitor_cet_finality {
            register_spec(e5, cet_watch(c.id, ct.0, ct.1))
        } else {
            e5
        },
        None => e5,
    }
}

/// On startup, register every watch a restored record still asks for.
pub fn handle_reinit_monitoring(state: &mut Engine, cfd: &Cfd, cet_timelock: u32)
    requires
        old(state).wf(),
    ensures
        final(state).wf(),
        final(state).entries() == reinit_spec(old(state).entries(), cfd@, cet_timelock),
        final(state).tip() == old(state).tip(),
        final(state).observed() == old(state).observed(),
{
    match &cfd.lock {
        Some(l) => {
            if cfd.monitor_lock_finality {
                monitor_lock_finality(state, cfd.id, l);
            }
        },
        None => {},
    }
    match &cfd.commit {
        Some(cm) => {
            if cfd.monitor_commit_finality {
                monitor_commit_finality(state, cfd.id, cm);
            }
            if cfd.monitor_cet_timelock {
                monitor_commit_cet_timelock(state, cfd.id, cm, cet_timelock);
            }
            match &cfd.refund {
                Some(rf) => {
                    if cfd.monitor_refund_timelock {
                        monitor_commit_refund_timelock(state, cfd.id, cm, rf.timelock);
                    }
                },
                None => {},
            }
        },
        None => {},
    }
    match &cfd.refund {
        Some(rf) => {
            if cfd.monitor_refund_finality {
                monitor_refund_finality(state, cfd.id, rf);
            }
        },
        None => {},
    }
    monitor_revoked_commit_transactions(state, cfd.id, &cfd.monitor_revoked_commit_transactions);
    match &cfd.collaborative_settlement {
        Some(p) => {
            if cfd.monitor_collaborative_settlement_finality {
                monitor_close_finality(state, cfd.id, p);
            }
        },
        None => {},
    }
    match &cfd.cet {
        Some(p) => {
            if cfd.monitor_cet_finality {
                monitor_cet_finality(state, cfd.id, p);
            }
        },
        None => {},
    }
}

/// The lifecycle handler the executor runs for a fired event.
#[derive(Clone, Copy, Debug, PartialEq, Eq, Structural)]
pub enum LifecycleCommand {
    LockConfirmed,
    CommitConfirmed,
    CollaborativeSettlementConfirmed,
    CetTimelockExpired,
    CetConfirmed,
    RefundConfirmed,
    RevokeConfirmed,
    RefundTimelockExpired,
}

/// Which contract a fired event belongs to, and which lifecycle handler it
/// asks the executor for.
pub open spec fn command_spec(e: Event) -> (OrderId, LifecycleCommand) {
    match e {
        Event::LockFinality(id) => (id, LifecycleCommand::LockConfirmed),
        Event::CommitFinality(id) => (id, LifecycleCommand::CommitConfirmed),
        Event::CloseFinality(id) => (id, LifecycleCommand::CollaborativeSettlementConfirmed),
        Event::CetTimelockExpired(id) => (id, LifecycleCommand::CetTimelockExpired),
        Event::CetFinality(id) => (id, LifecycleCommand::CetConfirmed),
        Event::RefundFinality(id) => (id, LifecycleCommand::RefundConfirmed),
        Event::RevokedTransactionFound(id) => (id, LifecycleCommand::RevokeConfirmed),
        Event::RefundTimelockExpired(id) => (id, LifecycleCommand::RefundTimelockExpired),
    }
}

/// Map a fired event to the contract and lifecycle handler to execute.
pub fn command_for_event(e: &Event) -> (r: (OrderId, LifecycleCommand))
    ensures
        r == command_spec(*e),
{
    match e {
        Event::LockFinality(id) => (*id, LifecycleCommand::LockConfirmed),
        Event::CommitFinality(id) => (*id, LifecycleCommand::CommitConfirmed),
        Event::CloseFinality(id) => (*id, LifecycleCommand::CollaborativeSettlementConfirmed),
        Event::CetTimelockExpired(id) => (*id, LifecycleCommand::CetTimelockExpired),
        Event::CetFinality(id) => (*id, LifecycleCommand::CetConfirmed),
        Event::RefundFinality(id) => (*id, LifecycleCommand::RefundConfirmed),
        Event::RevokedTransactionFound(id) => (*id, LifecycleCommand::RevokeConfirmed),
        Event::RefundTimelockExpired(id) => (*id, LifecycleCommand::RefundTimelockExpired),
    }
}

} // verus!
