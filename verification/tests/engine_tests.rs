use chain_monitor::engine::Engine;
use chain_monitor::ids::{Event, OrderId, Script, TxLocator, Txid};
use chain_monitor::status::{ScriptStatus, TxStatus};

fn txid(b: u8) -> Txid {
    Txid { bytes: vec![b; 32] }
}

fn script(b: u8) -> Script {
    Script { bytes: vec![b, b, b] }
}

fn locator(t: u8, s: u8) -> TxLocator {
    TxLocator { txid: txid(t), script: script(s) }
}

fn order(n: u128) -> OrderId {
    OrderId { id: n }
}

#[test]
fn lock_finalizes_after_two_syncs() {
    let mut e = Engine::new(100);
    e.monitor(
        locator(1, 9),
        ScriptStatus::with_confirmations(1),
        Event::LockFinality(order(7)),
    );
    assert_eq!(e.last_observed_status(&locator(1, 9)), None);

    let fired = e.update(100, &vec![vec![TxStatus { height: 0, txid: txid(1) }]]);
    assert_eq!(fired, vec![]);
    assert_eq!(e.last_observed_status(&locator(1, 9)), Some(ScriptStatus::InMempool));

    let fired = e.update(105, &vec![vec![TxStatus { height: 105, txid: txid(1) }]]);
    assert_eq!(fired, vec![Event::LockFinality(order(7))]);
    assert_eq!(e.last_observed_status(&locator(1, 9)), Some(ScriptStatus::Confirmed(1)));
}

#[test]
fn observed_depth_grows_with_the_tip() {
    let mut e = Engine::new(10);
    e.monitor(
        locator(1, 1),
        ScriptStatus::with_confirmations(100),
        Event::CetTimelockExpired(order(1)),
    );
    let histories = vec![vec![TxStatus { height: 10, txid: txid(1) }]];
    e.update(10, &histories);
    assert_eq!(e.last_observed_status(&locator(1, 1)), Some(ScriptStatus::Confirmed(1)));
    e.update(13, &histories);
    assert_eq!(e.last_observed_status(&locator(1, 1)), Some(ScriptStatus::Confirmed(4)));
}

#[test]
fn refund_timelock_fires_at_exact_depth() {
    let mut e = Engine::new(200);
    e.monitor(
        locator(2, 8),
        ScriptStatus::with_confirmations(144),
        Event::RefundTimelockExpired(order(1)),
    );

    // Commit confirmed at height 200; at tip 342 it is 143 deep.
    let fired = e.update(342, &vec![vec![TxStatus { height: 200, txid: txid(2) }]]);
    assert_eq!(fired, vec![]);

    // At tip 343 it is exactly 144 deep.
    let fired = e.update(343, &vec![vec![TxStatus { height: 200, txid: txid(2) }]]);
    assert_eq!(fired, vec![Event::RefundTimelockExpired(order(1))]);
}

#[test]
fn revoked_commit_fires_once() {
    let mut e = Engine::new(50);
    e.monitor(
        locator(3, 7),
        ScriptStatus::in_mempool(),
        Event::RevokedTransactionFound(order(4)),
    );

    let histories = vec![vec![TxStatus { height: 0, txid: txid(3) }]];
    let fired = e.update(50, &histories);
    assert_eq!(fired, vec![Event::RevokedTransactionFound(order(4))]);

    // Still unconfirmed in later syncs: the watch stays inert.
    let fired = e.update(51, &histories);
    assert_eq!(fired, vec![]);
    let fired = e.update(52, &histories);
    assert_eq!(fired, vec![]);
}

#[test]
fn events_fire_in_registration_order() {
    let mut e = Engine::new(10);
    e.monitor(
        locator(1, 1),
        ScriptStatus::with_confirmations(1),
        Event::LockFinality(order(1)),
    );
    e.monitor(
        locator(2, 2),
        ScriptStatus::with_confirmations(1),
        Event::CommitFinality(order(2)),
    );
    e.monitor(
        locator(3, 3),
        ScriptStatus::with_confirmations(1),
        Event::RefundFinality(order(3)),
    );

    let histories = vec![
        vec![TxStatus { height: 9, txid: txid(1) }],
        vec![TxStatus { height: 9, txid: txid(2) }],
        vec![TxStatus { height: 9, txid: txid(3) }],
    ];
    let fired = e.update(10, &histories);
    assert_eq!(
        fired,
        vec![
            Event::LockFinality(order(1)),
            Event::CommitFinality(order(2)),
            Event::RefundFinality(order(3)),
        ]
    );
}

#[test]
fn registering_same_watch_many_times_is_one_watch() {
    let mut e = Engine::new(0);
    for _ in 0..5 {
        e.monitor(
            locator(1, 1),
            ScriptStatus::with_confirmations(1),
            Event::LockFinality(order(1)),
        );
    }
    assert_eq!(e.num_monitoring(), 1);

    // A different target for the same locator is a distinct watch.
    e.monitor(
        locator(1, 1),
        ScriptStatus::with_confirmations(2),
        Event::LockFinality(order(1)),
    );
    assert_eq!(e.num_monitoring(), 2);
}

#[test]
fn reregistration_after_firing_does_not_refire() {
    let mut e = Engine::new(5);
    e.monitor(
        locator(1, 1),
        ScriptStatus::with_confirmations(1),
        Event::LockFinality(order(1)),
    );
    let fired = e.update(5, &vec![vec![TxStatus { height: 5, txid: txid(1) }]]);
    assert_eq!(fired.len(), 1);

    e.monitor(
        locator(1, 1),
        ScriptStatus::with_confirmations(1),
        Event::LockFinality(order(1)),
    );
    let fired = e.update(6, &vec![vec![TxStatus { height: 5, txid: txid(1) }]]);
    assert_eq!(fired, vec![]);
}

#[test]
fn missing_histories_leave_watches_unfired() {
    let mut e = Engine::new(10);
    e.monitor(
        locator(1, 1),
        ScriptStatus::with_confirmations(1),
        Event::LockFinality(order(1)),
    );
    e.monitor(
        locator(2, 2),
        ScriptStatus::with_confirmations(1),
        Event::CommitFinality(order(1)),
    );

    // Only the first script's history arrived; the second watch sees nothing.
    let histories = vec![vec![TxStatus { height: 10, txid: txid(1) }]];
    let fired = e.update(10, &histories);
    assert_eq!(fired, vec![Event::LockFinality(order(1))]);
}

#[test]
fn negative_height_counts_as_mempool() {
    let mut e = Engine::new(10);
    e.monitor(
        locator(1, 1),
        ScriptStatus::in_mempool(),
        Event::RevokedTransactionFound(order(1)),
    );
    let fired = e.update(10, &vec![vec![TxStatus { height: -1, txid: txid(1) }]]);
    assert_eq!(fired, vec![Event::RevokedTransactionFound(order(1))]);
}

#[test]
fn unmatched_txid_is_unknown() {
    let mut e = Engine::new(10);
    e.monitor(
        locator(1, 1),
        ScriptStatus::in_mempool(),
        Event::LockFinality(order(1)),
    );
    // The history holds a different transaction for the same script.
    let fired = e.update(10, &vec![vec![TxStatus { height: 3, txid: txid(9) }]]);
    assert_eq!(fired, vec![]);
}

#[test]
fn monitoring_scripts_lists_one_script_per_watch_in_order() {
    let mut e = Engine::new(0);
    e.monitor(
        locator(1, 5),
        ScriptStatus::with_confirmations(1),
        Event::LockFinality(order(1)),
    );
    e.monitor(
        locator(2, 5),
        ScriptStatus::with_confirmations(1),
        Event::CommitFinality(order(1)),
    );
    e.monitor(
        locator(3, 6),
        ScriptStatus::with_confirmations(3),
        Event::RefundFinality(order(1)),
    );

    let scripts = e.monitoring_scripts();
    assert_eq!(scripts.len(), 3);
    assert_eq!(scripts[0], script(5));
    assert_eq!(scripts[1], script(5));
    assert_eq!(scripts[2], script(6));
    assert_eq!(e.num_monitoring(), 3);
}

#[test]
fn deeper_target_waits_for_more_confirmations() {
    let mut e = Engine::new(10);
    e.monitor(
        locator(1, 1),
        ScriptStatus::with_confirmations(3),
        Event::CetFinality(order(1)),
    );
    // Depth 1 and 2: not yet.
    assert_eq!(e.update(10, &vec![vec![TxStatus { height: 10, txid: txid(1) }]]), vec![]);
    assert_eq!(e.update(11, &vec![vec![TxStatus { height: 10, txid: txid(1) }]]), vec![]);
    // Depth 3: fires.
    assert_eq!(
        e.update(12, &vec![vec![TxStatus { height: 10, txid: txid(1) }]]),
        vec![Event::CetFinality(order(1))]
    );
}
