use chain_monitor::ids::{OrderId, Script, TransactionKind, Txid};
use chain_monitor::projection::{
    cet_txid_and_script, fold, startup_broadcasts, Cfd, Dlc, EventKind, RevokedCommit, Tx,
    TransactionsAfterContractSetup, TransactionsAfterRollover,
};

fn txid(b: u8) -> Txid {
    Txid { bytes: vec![b; 32] }
}

fn script(b: u8) -> Script {
    Script { bytes: vec![b, b] }
}

fn tx(id: u8, outputs: Vec<u8>) -> Tx {
    Tx {
        txid: txid(id),
        output_scripts: outputs.into_iter().map(script).collect(),
        raw: vec![id, 0xFF],
    }
}

fn order(n: u128) -> OrderId {
    OrderId { id: n }
}

fn dlc() -> Dlc {
    Dlc {
        lock_tx: tx(1, vec![0x10]),
        lock_script: script(0x10),
        commit_tx: tx(2, vec![0x20]),
        commit_script: script(0x20),
        refund_tx: tx(3, vec![0x30]),
        maker_address_script: script(0x30),
        refund_timelock: 144,
        revoked_commits: vec![RevokedCommit { txid: txid(7), script_pubkey: script(0x70) }],
    }
}

#[test]
fn startup_replay_after_lock_confirmed() {
    let log = vec![
        EventKind::ContractSetupCompleted { dlc: Some(dlc()) },
        EventKind::LockConfirmed,
    ];
    let c = fold(Cfd::new(order(1)), log);
    assert!(!c.monitor_lock_finality);
    assert_eq!(c.broadcast_lock, None);
    assert!(c.monitor_commit_finality);
    assert!(c.monitor_refund_finality);
    assert!(c.monitor_cet_timelock);
    assert!(c.monitor_refund_timelock);
}

#[test]
fn version_counts_folded_events() {
    let log = vec![
        EventKind::ContractSetupStarted,
        EventKind::ContractSetupCompleted { dlc: Some(dlc()) },
        EventKind::RolloverStarted,
        EventKind::RolloverFailed,
        EventKind::LockConfirmed,
    ];
    let c = fold(Cfd::new(order(1)), log);
    assert_eq!(c.version(), 5);
}

#[test]
fn folding_the_same_log_twice_gives_identical_records() {
    let make_log = || {
        vec![
            EventKind::ContractSetupCompleted { dlc: Some(dlc()) },
            EventKind::ManualCommit { tx: tx(9, vec![0x55]) },
            EventKind::LockConfirmed,
        ]
    };
    let a = fold(Cfd::new(order(3)), make_log());
    let b = fold(Cfd::new(order(3)), make_log());
    assert_eq!(a, b);
}

#[test]
fn contract_setup_populates_the_record() {
    let c = Cfd::new(order(1)).apply(EventKind::ContractSetupCompleted { dlc: Some(dlc()) });
    assert_eq!(c.lock.as_ref().unwrap().txid, txid(1));
    assert_eq!(c.lock.as_ref().unwrap().descriptor_script, script(0x10));
    assert_eq!(c.commit.as_ref().unwrap().txid, txid(2));
    assert_eq!(c.refund.as_ref().unwrap().txid, txid(3));
    assert_eq!(c.refund.as_ref().unwrap().script_pubkey, script(0x30));
    assert_eq!(c.refund.as_ref().unwrap().timelock, 144);
    assert!(c.monitor_lock_finality);
    assert!(c.monitor_commit_finality);
    assert!(c.monitor_cet_timelock);
    assert!(c.monitor_refund_timelock);
    assert!(c.monitor_refund_finality);
    assert!(c.monitor_revoked_commit_transactions.is_empty());
    assert_eq!(c.broadcast_lock.as_ref().unwrap().txid, txid(1));
    assert_eq!(c.version, 1);
}

#[test]
fn rollover_replaces_commit_and_collects_revoked() {
    let c = Cfd::new(order(1))
        .apply(EventKind::ContractSetupCompleted { dlc: Some(dlc()) })
        .apply(EventKind::RolloverCompleted { dlc: Some(dlc()) });
    assert!(!c.monitor_lock_finality);
    assert_eq!(c.broadcast_lock, None);
    assert_eq!(c.monitor_revoked_commit_transactions.len(), 1);
    assert_eq!(c.monitor_revoked_commit_transactions[0].txid, txid(7));
    assert!(c.monitor_commit_finality);
    assert_eq!(c.version, 2);
}

#[test]
fn collaborative_settlement_sets_close_watch() {
    let c = Cfd::new(order(1))
        .apply(EventKind::ContractSetupCompleted { dlc: Some(dlc()) })
        .apply(EventKind::CollaborativeSettlementCompleted {
            spend_tx: tx(8, vec![0x44]),
            script: script(0x44),
        });
    assert_eq!(c.collaborative_settlement.as_ref().unwrap().0, txid(8));
    assert_eq!(c.collaborative_settlement.as_ref().unwrap().1, script(0x44));
    assert!(c.monitor_collaborative_settlement_finality);
    assert!(!c.monitor_lock_finality);
    assert_eq!(c.broadcast_lock, None);
}

#[test]
fn manual_commit_queues_rebroadcast() {
    let c = Cfd::new(order(1)).apply(EventKind::ManualCommit { tx: tx(5, vec![1]) });
    assert_eq!(c.broadcast_commit.as_ref().unwrap().txid, txid(5));
}

#[test]
fn commit_confirmed_clears_commit_state() {
    let c = Cfd::new(order(1))
        .apply(EventKind::ManualCommit { tx: tx(5, vec![1]) })
        .apply(EventKind::CommitConfirmed);
    assert!(!c.monitor_commit_finality);
    assert_eq!(c.broadcast_commit, None);
}

#[test]
fn terminal_event_clears_everything() {
    let c = Cfd::new(order(1))
        .apply(EventKind::ContractSetupCompleted { dlc: Some(dlc()) })
        .apply(EventKind::CetConfirmed);
    assert!(!c.monitor_lock_finality);
    assert!(!c.monitor_commit_finality);
    assert!(!c.monitor_cet_timelock);
    assert!(!c.monitor_refund_timelock);
    assert!(!c.monitor_refund_finality);
    assert!(!c.monitor_collaborative_settlement_finality);
    assert!(!c.monitor_cet_finality);
    assert!(c.monitor_revoked_commit_transactions.is_empty());
    assert_eq!(c.broadcast_lock, None);
    assert_eq!(c.broadcast_cet, None);
    assert_eq!(c.broadcast_commit, None);
}

#[test]
fn attested_cet_enables_finality_watch() {
    let c = Cfd::new(order(1))
        .apply(EventKind::ContractSetupCompleted { dlc: Some(dlc()) })
        .apply(EventKind::OracleAttestedPostCetTimelock { cet: tx(6, vec![0x66, 0x67]) });
    let (cet_txid, cet_script) = c.cet.as_ref().unwrap();
    assert_eq!(*cet_txid, txid(6));
    assert_eq!(*cet_script, script(0x66));
    assert!(c.monitor_cet_finality);
    assert!(!c.monitor_cet_timelock);
    assert_eq!(c.broadcast_cet.as_ref().unwrap().txid, txid(6));
}

#[test]
fn cet_without_outputs_leaves_guard_disabled() {
    let c = Cfd::new(order(1))
        .apply(EventKind::CetTimelockExpiredPostOracleAttestation { cet: tx(6, vec![]) });
    assert_eq!(c.cet, None);
    assert!(!c.monitor_cet_finality);
    assert!(!c.monitor_cet_timelock);
    // The rebroadcast is still queued.
    assert_eq!(c.broadcast_cet.as_ref().unwrap().txid, txid(6));
}

#[test]
fn cet_timelock_prior_attestation_only_disables_timelock() {
    let c = Cfd::new(order(1))
        .apply(EventKind::ContractSetupCompleted { dlc: Some(dlc()) })
        .apply(EventKind::CetTimelockExpiredPriorOracleAttestation);
    assert!(!c.monitor_cet_timelock);
    assert!(c.monitor_commit_finality);
}

#[test]
fn refund_timelock_expired_disables_guard() {
    let c = Cfd::new(order(1))
        .apply(EventKind::ContractSetupCompleted { dlc: Some(dlc()) })
        .apply(EventKind::RefundTimelockExpired);
    assert!(!c.monitor_refund_timelock);
    assert!(c.monitor_refund_finality);
}

#[test]
fn unrecognized_events_only_bump_the_version() {
    let base = Cfd::new(order(1)).apply(EventKind::ContractSetupCompleted { dlc: Some(dlc()) });
    let stepped = base.clone().apply(EventKind::RolloverFailed).apply(EventKind::RevokeConfirmed);
    assert_eq!(stepped.version, base.version + 2);
    assert_eq!(stepped.lock, base.lock);
    assert_eq!(stepped.commit, base.commit);
    assert_eq!(stepped.monitor_lock_finality, base.monitor_lock_finality);
    assert_eq!(stepped.broadcast_lock, base.broadcast_lock);
}

#[test]
fn setup_without_dlc_changes_nothing_but_version() {
    let c = Cfd::new(order(1)).apply(EventKind::ContractSetupCompleted { dlc: None });
    assert_eq!(c.lock, None);
    assert!(!c.monitor_lock_finality);
    assert_eq!(c.version, 1);
}

#[test]
fn startup_broadcasts_come_commit_then_cet_then_lock() {
    let c = Cfd {
        broadcast_commit: Some(tx(2, vec![1])),
        broadcast_cet: Some(tx(3, vec![1])),
        broadcast_lock: Some(tx(1, vec![1])),
        ..Cfd::new(order(1))
    };
    let order_of = startup_broadcasts(&c);
    let kinds: Vec<TransactionKind> = order_of.iter().map(|p| p.1).collect();
    assert_eq!(
        kinds,
        vec![TransactionKind::Commit, TransactionKind::Cet, TransactionKind::Lock]
    );
    assert_eq!(order_of[0].0.txid, txid(2));
    assert_eq!(order_of[1].0.txid, txid(3));
    assert_eq!(order_of[2].0.txid, txid(1));
}

#[test]
fn startup_broadcasts_skip_missing_entries() {
    let c = Cfd { broadcast_cet: Some(tx(3, vec![1])), ..Cfd::new(order(1)) };
    let order_of = startup_broadcasts(&c);
    assert_eq!(order_of.len(), 1);
    assert_eq!(order_of[0].1, TransactionKind::Cet);
}

#[test]
fn cet_locator_is_txid_and_first_output() {
    let t = tx(4, vec![0xAA, 0xBB]);
    let (id, s) = cet_txid_and_script(&t).unwrap();
    assert_eq!(id, txid(4));
    assert_eq!(s, script(0xAA));
    assert_eq!(cet_txid_and_script(&tx(4, vec![])), None);
}

#[test]
fn lock_confirmed_after_finality_acts_like_lock_confirmed() {
    let c = Cfd::new(order(1))
        .apply(EventKind::ContractSetupCompleted { dlc: Some(dlc()) })
        .apply(EventKind::LockConfirmedAfterFinality);
    assert!(!c.monitor_lock_finality);
    assert_eq!(c.broadcast_lock, None);
}

#[test]
fn cet_timelock_expired_post_attestation_enables_finality_watch() {
    let c = Cfd::new(order(1))
        .apply(EventKind::ContractSetupCompleted { dlc: Some(dlc()) })
        .apply(EventKind::CetTimelockExpiredPostOracleAttestation { cet: tx(6, vec![0x66]) });
    assert!(c.monitor_cet_finality);
    assert!(!c.monitor_cet_timelock);
    assert_eq!(c.cet.as_ref().unwrap().0, txid(6));
}

#[test]
fn collaborative_settlement_confirmed_is_terminal() {
    let c = Cfd::new(order(1))
        .apply(EventKind::ContractSetupCompleted { dlc: Some(dlc()) })
        .apply(EventKind::CollaborativeSettlementCompleted {
            spend_tx: tx(8, vec![0x44]),
            script: script(0x44),
        })
        .apply(EventKind::CollaborativeSettlementConfirmed);
    assert!(!c.monitor_collaborative_settlement_finality);
    assert!(!c.monitor_commit_finality);
    assert_eq!(c.broadcast_commit, None);
}

#[test]
fn transactions_after_contract_setup_projects_the_dlc() {
    let t = TransactionsAfterContractSetup::new(&dlc());
    assert_eq!(t.lock.txid, txid(1));
    assert_eq!(t.lock.descriptor_script, script(0x10));
    assert_eq!(t.commit.txid, txid(2));
    assert_eq!(t.refund.txid, txid(3));
    assert_eq!(t.refund.script_pubkey, script(0x30));
    assert_eq!(t.refund.timelock, 144);
}

#[test]
fn transactions_after_rollover_carries_revoked_commits() {
    let t = TransactionsAfterRollover::new(&dlc());
    assert_eq!(t.commit.txid, txid(2));
    assert_eq!(t.refund.timelock, 144);
    assert_eq!(t.revoked_commits.len(), 1);
    assert_eq!(t.revoked_commits[0].txid, txid(7));
}
