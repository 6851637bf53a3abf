use chain_monitor::fetcher::{
    chunk_scripts, Collector, FetchAction, FetchEvent, BATCH_SIZE,
    ELECTRUM_CLIENT_TIMEOUT_SECS, SCRIPT_GET_HISTORY_RESPONSE_TIMEOUT_SECS,
};
use chain_monitor::ids::{Script, Txid};
use chain_monitor::status::TxStatus;

fn scripts(n: usize) -> Vec<Script> {
    (0..n).map(|i| Script { bytes: vec![(i % 256) as u8, (i / 256) as u8] }).collect()
}

#[test]
fn timeouts_and_sizes_are_the_domain_constants() {
    assert_eq!(BATCH_SIZE, 25);
    assert_eq!(SCRIPT_GET_HISTORY_RESPONSE_TIMEOUT_SECS, 10);
    assert_eq!(ELECTRUM_CLIENT_TIMEOUT_SECS, 120);
}

#[test]
fn chunking_cuts_into_batches_of_twenty_five() {
    assert_eq!(chunk_scripts(&scripts(0)).len(), 0);
    assert_eq!(chunk_scripts(&scripts(1)).len(), 1);
    assert_eq!(chunk_scripts(&scripts(25)).len(), 1);
    assert_eq!(chunk_scripts(&scripts(26)).len(), 2);
    let chunks = chunk_scripts(&scripts(100));
    assert_eq!(chunks.len(), 4);
    for c in &chunks {
        assert_eq!(c.len(), 25);
    }
}

#[test]
fn chunking_preserves_order_and_contents() {
    let input = scripts(60);
    let chunks = chunk_scripts(&input);
    assert_eq!(chunks.len(), 3);
    assert_eq!(chunks[0].len(), 25);
    assert_eq!(chunks[1].len(), 25);
    assert_eq!(chunks[2].len(), 10);
    let flat: Vec<Script> = chunks.into_iter().flatten().collect();
    assert_eq!(flat, input);
}

#[test]
fn collector_keeps_what_arrived_before_a_timeout() {
    let mut c = Collector::new(3);
    let h1 = vec![TxStatus { height: 5, txid: Txid { bytes: vec![1; 32] } }];
    let h2 = vec![];
    assert_eq!(c.step(FetchEvent::Response(h1)), FetchAction::Continue);
    assert_eq!(c.step(FetchEvent::Response(h2)), FetchAction::Continue);
    assert_eq!(c.step(FetchEvent::TimedOut), FetchAction::Stop);
    let histories = c.into_histories();
    assert_eq!(histories.len(), 2);
    assert_eq!(histories[0].len(), 1);
    assert_eq!(histories[0][0].height, 5);
    assert_eq!(histories[1].len(), 0);
}

#[test]
fn collector_returns_everything_when_the_channel_closes() {
    let mut c = Collector::new(2);
    assert_eq!(c.step(FetchEvent::Response(vec![])), FetchAction::Continue);
    assert_eq!(c.step(FetchEvent::Response(vec![])), FetchAction::Continue);
    assert_eq!(c.step(FetchEvent::Closed), FetchAction::Stop);
    assert_eq!(c.into_histories().len(), 2);
}

#[test]
fn collector_with_no_responses_returns_nothing() {
    let mut c = Collector::new(5);
    assert_eq!(c.step(FetchEvent::Closed), FetchAction::Stop);
    assert_eq!(c.into_histories().len(), 0);
}
