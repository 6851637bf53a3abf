use vstd::prelude::*;
use crate::ids::{clone_bytes, clone_script, clone_txid, OrderId, Script, Txid};

verus! {

/// A transaction as the monitor reads it: its id, the scripts of its
/// outputs, and the consensus-encoded bytes carried along for rebroadcast.
#[derive(Clone, Debug, PartialEq, Eq)]
pub struct Tx {
    pub txid: Txid,
    pub output_scripts: Vec<Script>,
    pub raw: Vec<u8>,
}

pub ghost struct TxV {
    pub txid: Seq<u8>,
    pub outputs: Seq<Seq<u8>>,
    pub raw: Seq<u8>,
}

impl View for Tx {
    type V = TxV;

    open spec fn view(&self) -> TxV {
        TxV { txid: self.txid@, outputs: self.output_scripts.deep_view(), raw: self.raw@ }
    }
}

impl DeepView for Tx {
    type V = TxV;

    open spec fn deep_view(&self) -> TxV {
        self.view()
    }
}

/// A copy of a transaction with the same view.
#[verifier::loop_isolation(false)]
pub fn clone_tx(t: &Tx) -> (r: Tx)
    ensures
        r@ == t@,
{
    let mut outs: Vec<Script> = Vec::new();
    let n = t.output_scripts.len();
    let mut i: usize = 0;
    while i < n
        invariant
            n == t.output_scripts@.len(),
            i <= n,
            outs@.len() == i,
            forall|k: int| 0 <= k < i ==> outs@[k]@ == t.output_scripts@[k]@,
        decreases n - i,
    {
        outs.push(clone_script(&t.output_scripts[i]));
        i += 1;
    }
    let r = Tx { txid: clone_txid(&t.txid), output_scripts: outs, raw: clone_bytes(&t.raw) };
    proof {
        assert(r.output_scripts.deep_view() =~= t.output_scripts.deep_view());
    }
    r
}

/// The lock transaction's watch data: its txid and the script of the shared
/// output described by the lock descriptor.
#[derive(Clone, Debug, PartialEq, Eq)]
pub struct Lock {
    pub txid: Txid,
    pub descriptor_script: Script,
}

pub ghost struct LockV {
    pub txid: Seq<u8>,
    pub script: Seq<u8>,
}

impl View for Lock {
    type V = LockV;

    open spec fn view(&self) -> LockV {
        LockV { txid: self.txid@, script: self.descriptor_script@ }
    }
}

impl DeepView for Lock {
    type V = LockV;

    open spec fn deep_view(&self) -> LockV {
        self.view()
    }
}

/// The commit transaction's watch data.
#[derive(Clone, Debug, PartialEq, Eq)]
pub struct Commit {
    pub txid: Txid,
    pub descriptor_script: Script,
}

pub ghost struct CommitV {
    pub txid: Seq<u8>,
    pub script: Seq<u8>,
}

impl View for Commit {
    type V = CommitV;

    open spec fn view(&self) -> CommitV {
        CommitV { txid: self.txid@, script: self.descriptor_script@ }
    }
}

impl DeepView for Commit {
    type V = CommitV;

    open spec fn deep_view(&self) -> CommitV {
        self.view()
    }
}

/// The refund transaction's watch data, with the timelock configured for the
/// contract.
#[derive(Clone, Debug, PartialEq, Eq)]
pub struct Refund {
    pub txid: Txid,
    pub script_pubkey: Script,
    pub timelock: u32,
}

pub ghost struct RefundV {
    pub txid: Seq<u8>,
    pub script: Seq<u8>,
    pub timelock: u32,
}

impl View for Refund {
    type V = RefundV;

    open spec fn view(&self) -> RefundV {
        RefundV { txid: self.txid@, script: self.script_pubkey@, timelock: self.timelock }
    }
}

impl DeepView for Refund {
    type V = RefundV;

    open spec fn deep_view(&self) -> RefundV {
        self.view()
    }
}

/// A commit transaction made invalid by a rollover; its appearance on chain
/// indicates cheating.
#[derive(Clone, Debug, PartialEq, Eq)]
pub struct RevokedCommit {
    pub txid: Txid,
    pub script_pubkey: Script,
}

pub ghost struct RevokedCommitV {
    pub txid: Seq<u8>,
    pub script: Seq<u8>,
}

impl View for RevokedCommit {
    type V = RevokedCommitV;

    open spec fn view(&self) -> RevokedCommitV {
        RevokedCommitV { txid: self.txid@, script: self.script_pubkey@ }
    }
}

impl DeepView for RevokedCommit {
    type V = RevokedCommitV;

    open spec fn deep_view(&self) -> RevokedCommitV {
        self.view()
    }
}

/// The slice of a DLC that monitoring reads: the lock, commit and refund
/// transaction family, with descriptor output scripts already derived, and
/// the commits revoked by earlier rollovers.
#[derive(Clone, Debug, PartialEq, Eq)]
pub struct Dlc {
    pub lock_tx: Tx,
    pub lock_script: Script,
    pub commit_tx: Tx,
    pub commit_script: Script,
    pub refund_tx: Tx,
    pub maker_address_script: Script,
    pub refund_timelock: u32,
    pub revoked_commits: Vec<RevokedCommit>,
}

pub open spec fn lock_of_dlc(dlc: Dlc) -> LockV {
    LockV { txid: dlc.lock_tx.txid@, script: dlc.lock_script@ }
}

pub open spec fn commit_of_dlc(dlc: Dlc) -> CommitV {
    CommitV { txid: dlc.commit_tx.txid@, script: dlc.commit_script@ }
}

pub open spec fn refund_of_dlc(dlc: Dlc) -> RefundV {
    RefundV {
        txid: dlc.refund_tx.txid@,
        script: dlc.maker_address_script@,
        timelock: dlc.refund_timelock,
    }
}

/// The events of a contract's append-only log, as far as monitoring reads
/// them; payloads the monitor ignores are omitted.
#[derive(Debug, PartialEq, Eq)]
pub enum EventKind {
    ContractSetupStarted,
    ContractSetupCompleted { dlc: Option<Dlc> },
    ContractSetupFailed,
    OfferRejected,
    RolloverStarted,
    RolloverAccepted,
    RolloverRejected,
    RolloverCompleted { dlc: Option<Dlc> },
    RolloverFailed,
    CollaborativeSettlementStarted,
    CollaborativeSettlementProposalAccepted,
    CollaborativeSettlementCompleted { spend_tx: Tx, script: Script },
    CollaborativeSettlementRejected,
    CollaborativeSettlementFailed,
    LockConfirmed,
    LockConfirmedAfterFinality,
    CommitConfirmed,
    CetConfirmed,
    RefundConfirmed,
    RevokeConfirmed,
    CollaborativeSettlementConfirmed,
    CetTimelockExpiredPriorOracleAttestation,
    CetTimelockExpiredPostOracleAttestation { cet: Tx },
    OracleAttestedPriorCetTimelock,
    OracleAttestedPostCetTimelock { cet: Tx },
    ManualCommit { tx: Tx },
    RefundTimelockExpired,
}

/// Read-model of one CFD for the monitor: what to watch, what to rebroadcast
/// on startup, and how many events have been folded in.
#[derive(Clone, Debug, PartialEq, Eq)]
pub struct Cfd {
    pub id: OrderId,
    pub lock: Option<Lock>,
    pub monitor_lock_finality: bool,
    pub collaborative_settlement: Option<(Txid, Script)>,
    pub monitor_collaborative_settlement_finality: bool,
    pub commit: Option<Commit>,
    pub monitor_commit_finality: bool,
    pub monitor_cet_timelock: bool,
    pub monitor_refund_timelock: bool,
    pub cet: Option<(Txid, Script)>,
    pub monitor_cet_finality: bool,
    pub refund: Option<Refund>,
    pub monitor_refund_finality: bool,
    pub monitor_revoked_commit_transactions: Vec<RevokedCommit>,
    pub broadcast_lock: Option<Tx>,
    pub broadcast_cet: Option<Tx>,
    pub broadcast_commit: Option<Tx>,
    pub version: u32,
}

#[verifier::ext_equal]
pub ghost struct CfdV {
    pub id: OrderId,
    pub lock: Option<LockV>,
    pub monitor_lock_finality: bool,
    pub collaborative_settlement: Option<(Seq<u8>, Seq<u8>)>,
    pub monitor_collaborative_settlement_finality: bool,
    pub commit: Option<CommitV>,
    pub monitor_commit_finality: bool,
    pub monitor_cet_timelock: bool,
    pub monitor_refund_timelock: bool,
    pub cet: Option<(Seq<u8>, Seq<u8>)>,
    pub monitor_cet_finality: bool,
    pub refund: Option<RefundV>,
    pub monitor_refund_finality: bool,
    pub monitor_revoked_commit_transactions: Seq<RevokedCommitV>,
    pub broadcast_lock: Option<TxV>,
    pub broadcast_cet: Option<TxV>,
    pub broadcast_commit: Option<TxV>,
    pub version: u32,
}

impl View for Cfd {
    type V = CfdV;

    open spec fn view(&self) -> CfdV {
        CfdV {
            id: self.id,
            lock: self.lock.deep_view(),
            monitor_lock_finality: self.monitor_lock_finality,
            collaborative_settlement: self.collaborative_settlement.deep_view(),
            monitor_collaborative_settlement_finality: self
                .monitor_collaborative_settlement_finality,
            commit: self.commit.deep_view(),
            monitor_commit_finality: self.monitor_commit_finality,
            monitor_cet_timelock: self.monitor_cet_timelock,
            monitor_refund_timelock: self.monitor_refund_timelock,
            cet: self.cet.deep_view(),
            monitor_cet_finality: self.monitor_cet_finality,
            refund: self.refund.deep_view(),
            monitor_refund_finality: self.monitor_refund_finality,
            monitor_revoked_commit_transactions: self
                .monitor_revoked_commit_transactions
                .deep_view(),
            broadcast_lock: self.broadcast_lock.deep_view(),
            broadcast_cet: self.broadcast_cet.deep_view(),
            broadcast_commit: self.broadcast_commit.deep_view(),
            version: self.version,
        }
    }
}

/// The record before any event has been folded in.
pub open spec fn initial_cfd_spec(id: OrderId) -> CfdV {
    CfdV {
        id: id,
        lock: None,
        monitor_lock_finality: false,
        collaborative_settlement: None,
        monitor_collaborative_settlement_finality: false,
        commit: None,
        monitor_commit_finality: false,
        monitor_cet_timelock: false,
        monitor_refund_timelock: false,
        cet: None,
        monitor_cet_finality: false,
        refund: None,
        monitor_refund_finality: false,
        monitor_revoked_commit_transactions: Seq::empty(),
        broadcast_lock: None,
        broadcast_cet: None,
        broadcast_commit: None,
        version: 0,
    }
}

/// The locator a CET is watched by: its txid and the script of its first
/// output; nothing when the transaction has no outputs.
pub open spec fn cet_locator_spec(t: TxV) -> Option<(Seq<u8>, Seq<u8>)> {
    if t.outputs.len() == 0 {
        None
    } else {
        Some((t.txid, t.outputs[0]))
    }
}

/// One step of the projection fold.  Every step bumps the version; the
/// events the monitor recognizes additionally change the record as the
/// contract lifecycle demands, and all others leave it untouched.
pub open spec fn apply_spec(c: CfdV, event: EventKind) -> CfdV {
    let v = CfdV { version: (c.version + 1) as u32, ..c };
    match event {
        EventKind::ContractSetupCompleted { dlc: Some(dlc) } => CfdV {
            lock: Some(lock_of_dlc(dlc)),
            monitor_lock_finality: true,
            commit: Some(commit_of_dlc(dlc)),
            monitor_commit_finality: true,
            monitor_cet_timelock: true,
            monitor_refund_timelock: true,
            refund: Some(refund_of_dlc(dlc)),
            monitor_refund_finality: true,
            monitor_revoked_commit_transactions: Seq::empty(),
            broadcast_lock: Some(dlc.lock_tx@),
            ..v
        },
        EventKind::RolloverCompleted { dlc: Some(dlc) } => CfdV {
            monitor_lock_finality: false,
            commit: Some(commit_of_dlc(dlc)),
            monitor_commit_finality: true,
            monitor_cet_timelock: true,
            monitor_refund_timelock: true,
            refund: Some(refund_of_dlc(dlc)),
            monitor_refund_finality: true,
            monitor_revoked_commit_transactions: dlc.revoked_commits.deep_view(),
            broadcast_lock: None,
            ..v
        },
        EventKind::CollaborativeSettlementCompleted { spend_tx, script } => CfdV {
            collaborative_settlement: Some((spend_tx.txid@, script@)),
            monitor_collaborative_settlement_finality: true,
            monitor_lock_finality: false,
            broadcast_lock: None,
            ..v
        },
        EventKind::LockConfirmed | EventKind::LockConfirmedAfterFinality => CfdV {
            monitor_lock_finality: false,
            broadcast_lock: None,
            ..v
        },
        EventKind::ManualCommit { tx } => CfdV { broadcast_commit: Some(tx@), ..v },
        EventKind::CommitConfirmed => CfdV {
            monitor_commit_finality: false,
            broadcast_commit: None,
            ..v
        },
        EventKind::CetConfirmed | EventKind::RefundConfirmed
        | EventKind::CollaborativeSettlementConfirmed => CfdV {
            monitor_lock_finality: false,
            monitor_commit_finality: false,
            monitor_cet_timelock: false,
            monitor_refund_timelock: false,
            monitor_refund_finality: false,
            monitor_revoked_commit_transactions: Seq::empty(),
            monitor_collaborative_settlement_finality: false,
            monitor_cet_finality: false,
            broadcast_lock: None,
            broadcast_cet: None,
            broadcast_commit: None,
            ..v
        },
        EventKind::CetTimelockExpiredPriorOracleAttestation => CfdV {
            monitor_cet_timelock: false,
            ..v
        },
        EventKind::CetTimelockExpiredPostOracleAttestation { cet }
        | EventKind::OracleAttestedPostCetTimelock { cet } => CfdV {
            broadcast_cet: Some(cet@),
            cet: cet_locator_spec(cet@),
            monitor_cet_finality: if cet@.outputs.len() > 0 {
                true
            } else {
                v.monitor_cet_finality
            },
            monitor_cet_timelock: false,
            ..v
        },
        EventKind::RefundTimelockExpired => CfdV { monitor_refund_timelock: false, ..v },
        EventKind::ContractSetupCompleted { dlc: None }
        | EventKind::RolloverCompleted { dlc: None }
        | EventKind::RolloverStarted
        | EventKind::RolloverAccepted
        | EventKind::RolloverFailed
        | EventKind::OracleAttestedPriorCetTimelock
        | EventKind::CollaborativeSettlementStarted
        | EventKind::CollaborativeSettlementRejected
        | EventKind::CollaborativeSettlementFailed
        | EventKind::CollaborativeSettlementProposalAccepted
        | EventKind::ContractSetupStarted
        | EventKind::ContractSetupFailed
        | EventKind::OfferRejected
        | EventKind::RolloverRejected
        | EventKind::RevokeConfirmed => v,
    }
}

/// The transaction family to watch after contract setup.
pub struct TransactionsAfterContractSetup {
    pub lock: Lock,
    pub commit: Commit,
    pub refund: Refund,
}

impl TransactionsAfterContractSetup {
    /// Project the lock, commit and refund watch data out of a fresh DLC.
    /// The refund is watched by the maker's address script: both parties put
    /// up coins, so that output is present.
    pub fn new(dlc: &Dlc) -> (r: Self)
        ensures
            r.lock@ == lock_of_dlc(*dlc),
            r.commit@ == commit_of_dlc(*dlc),
            r.refund@ == refund_of_dlc(*dlc),
    {
        TransactionsAfterContractSetup {
            lock: Lock {
                txid: clone_txid(&dlc.lock_tx.txid),
                descriptor_script: clone_script(&dlc.lock_script),
            },
            commit: Commit {
                txid: clone_txid(&dlc.commit_tx.txid),
                descriptor_script: clone_script(&dlc.commit_script),
            },
            refund: Refund {
                txid: clone_txid(&dlc.refund_tx.txid),
                script_pubkey: clone_script(&dlc.maker_address_script),
                timelock: dlc.refund_timelock,
            },
        }
    }
}

/// The transaction family to watch after a rollover, including the commits
/// the rollover revoked.
pub struct TransactionsAfterRollover {
    pub commit: Commit,
    pub refund: Refund,
    pub revoked_commits: Vec<RevokedCommit>,
}

impl TransactionsAfterRollover {
    /// Project the commit and refund watch data and the revoked commit list
    /// out of a rolled-over DLC.
    #[verifier::loop_isolation(false)]
    pub fn new(dlc: &Dlc) -> (r: Self)
        ensures
            r.commit@ == commit_of_dlc(*dlc),
            r.refund@ == refund_of_dlc(*dlc),
            r.revoked_commits.deep_view() == dlc.revoked_commits.deep_view(),
    {
        let mut revoked: Vec<RevokedCommit> = Vec::new();
        let n = dlc.revoked_commits.len();
        let mut i: usize = 0;
        while i < n
            invariant
                n == dlc.revoked_commits@.len(),
                i <= n,
                revoked@.len() == i,
                forall|k: int| 0 <= k < i ==> revoked@[k]@ == dlc.revoked_commits@[k]@,
            decreases n - i,
        {
            revoked.push(
                RevokedCommit {
                    txid: clone_txid(&dlc.revoked_commits[i].txid),
                    script_pubkey: clone_script(&dlc.revoked_commits[i].script_pubkey),
                },
            );
            i += 1;
        }
        proof {
            assert(revoked.deep_view() =~= dlc.revoked_commits.deep_view());
        }
        TransactionsAfterRollover {
            commit: Commit {
                txid: clone_txid(&dlc.commit_tx.txid),
                descriptor_script: clone_script(&dlc.commit_script),
            },
            refund: Refund {
                txid: clone_txid(&dlc.refund_tx.txid),
                script_pubkey: clone_script(&dlc.maker_address_script),
                timelock: dlc.refund_timelock,
            },
            revoked_commits: revoked,
        }
    }
}

/// Where to watch for a CET: its txid and its first output's script, or
/// nothing — to be reported as an error — when it has no outputs.
pub fn cet_txid_and_script(cet: &Tx) -> (r: Option<(Txid, Script)>)
    ensures
        r.deep_view() == cet_locator_spec(cet@),
{
    if cet.output_scripts.len() == 0 {
        None
    } else {
        Some((clone_txid(&cet.txid), clone_script(&cet.output_scripts[0])))
    }
}

impl Cfd {
    /// The record of a contract no event has been folded into yet.
    pub fn new(id: OrderId) -> (r: Cfd)
        ensures
            r@ == initial_cfd_spec(id),
    {
        let r = Cfd {
            id,
            lock: None,
            monitor_lock_finality: false,
            collaborative_settlement: None,
            monitor_collaborative_settlement_finality: false,
            commit: None,
            monitor_commit_finality: false,
            monitor_cet_timelock: false,
            monitor_refund_timelock: false,
            cet: None,
            monitor_cet_finality: false,
            refund: None,
            monitor_refund_finality: false,
            monitor_revoked_commit_transactions: Vec::new(),
            broadcast_lock: None,
            broadcast_cet: None,
            broadcast_commit: None,
            version: 0,
        };
        proof {
            assert(r@ =~= initial_cfd_spec(id));
        }
        r
    }

    /// How many events have been folded into this record.
    pub fn version(&self) -> (r: u32)
        ensures
            r == self@.version,
    {
        self.version
    }

    /// Fold one event of the contract's log into the record.
    pub fn apply(self, event: EventKind) -> (r: Cfd)
        requires
            self@.version < u32::MAX,
        ensures
            r@ == apply_spec(self@, event),
    {
        let ghost cv = self@;
        let ghost ev = event;
        let version = self.version + 1;
        let r = match event {
            EventKind::ContractSetupCompleted { dlc: Some(dlc) } => {
                let ghost dv = dlc;
                let TransactionsAfterContractSetup { lock, commit, refund } =
                    TransactionsAfterContractSetup::new(&dlc);
                let out = Cfd {
                    lock: Some(lock),
                    monitor_lock_finality: true,
                    commit: Some(commit),
                    monitor_commit_finality: true,
                    monitor_cet_timelock: true,
                    monitor_refund_timelock: true,
                    refund: Some(refund),
                    monitor_refund_finality: true,
                    monitor_revoked_commit_transactions: Vec::new(),
                    broadcast_lock: Some(dlc.lock_tx),
                    version,
                    ..self
                };
                proof {
                    assert(out@.monitor_revoked_commit_transactions =~= Seq::<
                        RevokedCommitV,
                    >::empty());
                    assert(out@ =~= apply_spec(cv, ev));
                }
                out
            },
            EventKind::RolloverCompleted { dlc: Some(dlc) } => {
                let TransactionsAfterRollover { commit, refund, revoked_commits } =
                    TransactionsAfterRollover::new(&dlc);
                let out = Cfd {
                    monitor_lock_finality: false,
                    commit: Some(commit),
                    monitor_commit_finality: true,
                    monitor_cet_timelock: true,
                    monitor_refund_timelock: true,
                    refund: Some(refund),
                    monitor_refund_finality: true,
                    monitor_revoked_commit_transactions: revoked_commits,
                    broadcast_lock: None,
                    version,
                    ..self
                };
                proof {
                    assert(out@ =~= apply_spec(cv, ev));
                }
                out
            },
            EventKind::CollaborativeSettlementCompleted { spend_tx, script } => {
                let out = Cfd {
                    collaborative_settlement: Some((spend_tx.txid, script)),
                    monitor_collaborative_settlement_finality: true,
                    monitor_lock_finality: false,
                    broadcast_lock: None,
                    version,
                    ..self
                };
                proof {
                    assert(out@ =~= apply_spec(cv, ev));
                }
                out
            },
            EventKind::LockConfirmed => {
                let out = Cfd {
                    monitor_lock_finality: false,
                    broadcast_lock: None,
                    version,
                    ..self
                };
                proof {
                    assert(out@ =~= apply_spec(cv, ev));
                }
                out
            },
            EventKind::LockConfirmedAfterFinality => {
                let out = Cfd {
                    monitor_lock_finality: false,
                    broadcast_lock: None,
                    version,
                    ..self
                };
                proof {
                    assert(out@ =~= apply_spec(cv, ev));
                }
                out
            },
            EventKind::ManualCommit { tx } => {
                let out = Cfd { broadcast_commit: Some(tx), version, ..self };
                proof {
                    assert(out@ =~= apply_spec(cv, ev));
                }
                out
            },
            EventKind::CommitConfirmed => {
                let out = Cfd {
                    monitor_commit_finality: false,
                    broadcast_commit: None,
                    version,
                    ..self
                };
                proof {
                    assert(out@ =~= apply_spec(cv, ev));
                }
                out
            },
            EventKind::CetConfirmed | EventKind::RefundConfirmed
            | EventKind::CollaborativeSettlementConfirmed => {
                let out = Cfd {
                    monitor_lock_finality: false,
                    monitor_commit_finality: false,
                    monitor_cet_timelock: false,
                    monitor_refund_timelock: false,
                    monitor_refund_finality: false,
                    monitor_revoked_commit_transactions: Vec::new(),
                    monitor_collaborative_settlement_finality: false,
                    monitor_cet_finality: false,
                    broadcast_lock: None,
                    broadcast_cet: None,
                    broadcast_commit: None,
                    version,
                    ..self
                };
                proof {
                    assert(out@.monitor_revoked_commit_transactions =~= Seq::<
                        RevokedCommitV,
                    >::empty());
                    assert(out@ =~= apply_spec(cv, ev));
                }
                out
            },
            EventKind::CetTimelockExpiredPriorOracleAttestation => {
                let out = Cfd { monitor_cet_timelock: false, version, ..self };
                proof {
                    assert(out@ =~= apply_spec(cv, ev));
                }
                out
            },
            EventKind::CetTimelockExpiredPostOracleAttestation { cet }
            | EventKind::OracleAttestedPostCetTimelock { cet } => {
                let locator = cet_txid_and_script(&cet);
                let enable = match &locator {
                    Some(_) => true,
                    None => self.monitor_cet_finality,
                };
                let out = Cfd {
                    broadcast_cet: Some(cet),
                    cet: locator,
                    monitor_cet_finality: enable,
                    monitor_cet_timelock: false,
                    version,
                    ..self
                };
                proof {
                    assert(out@ =~= apply_spec(cv, ev));
                }
                out
            },
            EventKind::RefundTimelockExpired => {
                let out = Cfd { monitor_refund_timelock: false, version, ..self };
                proof {
                    assert(out@ =~= apply_spec(cv, ev));
                }
                out
            },
            EventKind::ContractSetupCompleted { dlc: None }
            | EventKind::RolloverCompleted { dlc: None }
            | EventKind::RolloverStarted
            | EventKind::RolloverAccepted
            | EventKind::RolloverFailed
            | EventKind::OracleAttestedPriorCetTimelock
            | EventKind::CollaborativeSettlementStarted
            | EventKind::CollaborativeSettlementRejected
            | EventKind::CollaborativeSettlementFailed
            | EventKind::CollaborativeSettlementProposalAccepted
            | EventKind::ContractSetupStarted
            | EventKind::ContractSetupFailed
            | EventKind::OfferRejected
            | EventKind::RolloverRejected
            | EventKind::RevokeConfirmed => {
                let out = Cfd { version, ..self };
                proof {
                    assert(out@ =~= apply_spec(cv, ev));
                }
                out
            },
        };
        r
    }
}

/// Folding a whole event log, first event first.
pub open spec fn fold_spec(c: CfdV, log: Seq<EventKind>) -> CfdV
    decreases log.len(),
{
    if log.len() == 0 {
        c
    } else {
        fold_spec(apply_spec(c, log[0]), log.drop_first())
    }
}

/// Fold a contract's event log into its record, first event first.
#[verifier::loop_isolation(false)]
pub fn fold(c: Cfd, events: Vec<EventKind>) -> (r: Cfd)
    requires
        c@.version + events@.len() <= u32::MAX,
    ensures
        r@ == fold_spec(c@, events@),
{
    let ghost c0 = c@;
    let ghost ev0 = events@;
    let mut cur = c;
    let mut rest = events;
    while rest.len() > 0
        invariant
            fold_spec(cur@, rest@) == fold_spec(c0, ev0),
            cur@.version + rest@.len() <= u32::MAX,
        decreases rest@.len(),
    {
        let ghost rpre = rest@;
        let e = rest.remove(0);
        proof {
            assert(rest@ =~= rpre.drop_first());
            assert(e == rpre[0]);
        }
        cur = cur.apply(e);
    }
    cur
}

/// Folding is deterministic — the record is a function of the event log
/// alone — and the version of a record folded from empty counts exactly the
/// events of the log.  The contract id never changes.
pub proof fn lemma_fold_version(c: CfdV, log: Seq<EventKind>)
    requires
        c.version + log.len() <= u32::MAX,
    ensures
        fold_spec(c, log).version == c.version + log.len(),
        fold_spec(c, log).id == c.id,
    decreases log.len(),
{
    if log.len() > 0 {
        assert(apply_spec(c, log[0]).version == c.version + 1);
        lemma_fold_version(apply_spec(c, log[0]), log.drop_first());
    }
}

/// The version of a record folded from empty equals the length of the log.
pub proof fn lemma_projection_version(id: OrderId, log: Seq<EventKind>)
    requires
        log.len() <= u32::MAX,
    ensures
        fold_spec(initial_cfd_spec(id), log).version == log.len(),
        fold_spec(initial_cfd_spec(id), log).id == id,
{
    lemma_fold_version(initial_cfd_spec(id), log);
}

/// The rebroadcasts owed on startup, in the order they are submitted:
/// commit, then CET, then lock.
pub open spec fn startup_broadcasts_spec(c: CfdV) -> Seq<(TxV, crate::ids::TransactionKind)> {
    (match c.broadcast_commit {
        Some(t) => seq![(t, crate::ids::TransactionKind::Commit)],
        None => Seq::empty(),
    }) + (match c.broadcast_cet {
        Some(t) => seq![(t, crate::ids::TransactionKind::Cet)],
        None => Seq::empty(),
    }) + (match c.broadcast_lock {
        Some(t) => seq![(t, crate::ids::TransactionKind::Lock)],
        None => Seq::empty(),
    })
}

/// The transactions to rebroadcast when monitoring restarts, paired with
/// their kinds, commit first, then CET, then lock.
pub fn startup_broadcasts(cfd: &Cfd) -> (r: Vec<(Tx, crate::ids::TransactionKind)>)
    ensures
        Seq::new(r@.len(), |j: int| (r@[j].0@, r@[j].1)) == startup_broadcasts_spec(cfd@),
{
    let mut r: Vec<(Tx, crate::ids::TransactionKind)> = Vec::new();
    match &cfd.broadcast_commit {
        Some(t) => {
            r.push((clone_tx(t), crate::ids::TransactionKind::Commit));
        },
        None => {},
    }
    match &cfd.broadcast_cet {
        Some(t) => {
            r.push((clone_tx(t), crate::ids::TransactionKind::Cet));
        },
        None => {},
    }
    match &cfd.broadcast_lock {
        Some(t) => {
            r.push((clone_tx(t), crate::ids::TransactionKind::Lock));
        },
        None => {},
    }
    proof {
        assert(Seq::new(r@.len(), |j: int| (r@[j].0@, r@[j].1)) =~= startup_broadcasts_spec(
            cfd@,
        ));
    }
    r
}

} // verus!
