use mempoolcp::layers::TxDepth;
use mempoolcp::mirror::{Action, Event, Failure, MirrorRun, Phase};
use mempoolcp::retransmit::{ClientType, Outcome, RetransmitTally};
use mempoolcp::txid::Txid;

fn id(n: u8) -> Txid {
    Txid::from_hex(&format!("{:02x}", n).repeat(32)).expect("an identifier")
}

fn tx(n: u8, ancestor_count: usize) -> TxDepth {
    TxDepth { ancestor_count, tx_id: id(n) }
}

fn sizes(source_size: usize, dest_size: usize) -> Event {
    Event::Sizes { source_size, dest_size }
}

fn sent(n: usize) -> Event {
    Event::BatchDone((0..n).map(|_| Outcome::Sent).collect())
}

const NOTE: &str = "\nNote: Mempool sizes could not be the same at the end because of different peers connections, conflicting transactions or transaction arrival timing issues between nodes (among other causes).";

#[test]
fn the_parents_are_through_before_the_child_is_handed_out() {
    let (a, b, c) = (id(0xa), id(0xb), id(0xc));
    let mut run = MirrorRun::new(false, false, false);
    assert_eq!(run.pending(), Action::ReportSizes);
    assert_eq!(run.batch(), None);
    run.step(sizes(3, 0));
    assert_eq!(run.pending(), Action::TakeSnapshot { fast: false });
    run.step(Event::Snapshot(vec![tx(0xa, 1), tx(0xb, 1), tx(0xc, 2)]));
    assert_eq!(run.layers(), &vec![vec![a.clone(), b.clone()], vec![c.clone()]]);

    assert_eq!(run.pending(), Action::RetransmitLayer(0));
    assert_eq!(run.batch(), Some(&vec![a, b]));
    // as long as the first layer is not through, the child is not handed out
    run.step(sent(1));
    assert_eq!(run.pending(), Action::RetransmitLayer(0));
    run.step(sizes(1, 1));
    assert_eq!(run.pending(), Action::RetransmitLayer(0));
    assert!(!run.batch().expect("a batch").contains(&c));

    run.step(sent(2));
    assert_eq!(run.pending(), Action::RetransmitLayer(1));
    assert_eq!(run.batch(), Some(&vec![c]));
    run.step(sent(1));
    assert_eq!(run.pending(), Action::ReportSizes);
    assert_eq!(run.phase(), Phase::SizingAfter);
    run.step(sizes(3, 3));
    assert_eq!(run.pending(), Action::Finish);
    assert_eq!(run.tally(), &RetransmitTally::new(false));
}

#[test]
fn without_a_feed_there_is_no_listener_and_nothing_to_catch_up_with() {
    let mut run = MirrorRun::new(true, false, false);
    let mut actions = vec![run.pending()];
    for event in [
        sizes(2, 0),
        Event::Snapshot(vec![tx(1, 1), tx(2, 2)]),
        sent(1),
        sent(1),
        sizes(2, 2),
    ] {
        run.step(event);
        actions.push(run.pending());
    }
    assert_eq!(
        actions,
        vec![
            Action::ReportSizes,
            Action::TakeSnapshot { fast: true },
            Action::RetransmitLayer(0),
            Action::RetransmitLayer(1),
            Action::ReportSizes,
            Action::Finish,
        ]
    );
    // events of a listener are not waited for, and change nothing
    let mut run = MirrorRun::new(true, false, false);
    run.step(Event::FeedReady);
    run.step(Event::Drained(vec![id(1)]));
    assert_eq!(run.pending(), Action::ReportSizes);
    assert_eq!(run.phase(), Phase::SizingBefore);
}

#[test]
fn with_a_feed_the_listener_comes_first_and_its_queue_last() {
    let mut run = MirrorRun::new(false, false, true);
    assert_eq!(run.pending(), Action::StartFeed);
    // nothing but the listener's first record lets the run go on
    run.step(sizes(1, 0));
    run.step(Event::Snapshot(vec![tx(1, 1)]));
    assert_eq!(run.pending(), Action::StartFeed);
    run.step(Event::FeedReady);
    assert_eq!(run.pending(), Action::ReportSizes);
    run.step(sizes(1, 0));
    assert_eq!(run.pending(), Action::TakeSnapshot { fast: false });
    run.step(Event::Snapshot(vec![tx(1, 1)]));
    assert_eq!(run.pending(), Action::RetransmitLayer(0));
    run.step(sent(1));
    assert_eq!(run.pending(), Action::StopFeed);
    assert_eq!(run.batch(), None);
    run.step(Event::Drained(vec![id(8), id(9)]));
    assert_eq!(run.pending(), Action::RetransmitCatchUp);
    assert_eq!(run.batch(), Some(&vec![id(8), id(9)]));
    let lines = run.step(Event::BatchDone(vec![
        Outcome::Sent,
        Outcome::FailedSubmit("known".to_string()),
    ]));
    assert_eq!(lines, vec!["Done. Sent 2 additional transactions from ZMQ iterface".to_string()]);
    assert_eq!(run.pending(), Action::ReportSizes);
    assert_eq!(run.tally().failed_submit, 1);
    run.step(sizes(3, 3));
    assert_eq!(run.phase(), Phase::Done);
}

#[test]
fn an_empty_queue_is_caught_up_with_at_once() {
    let mut run = MirrorRun::new(false, false, true);
    run.step(Event::FeedReady);
    run.step(sizes(0, 0));
    run.step(Event::Snapshot(vec![]));
    assert_eq!(run.pending(), Action::StopFeed);
    run.step(Event::Drained(vec![]));
    assert_eq!(run.batch(), Some(&vec![]));
    let lines = run.step(sent(0));
    assert_eq!(lines, vec!["Done. Sent 0 additional transactions from ZMQ iterface".to_string()]);
    assert_eq!(run.pending(), Action::ReportSizes);
}

#[test]
fn failures_do_not_stop_the_run() {
    let mut run = MirrorRun::new(false, false, false);
    run.step(sizes(3, 0));
    run.step(Event::Snapshot(vec![tx(1, 1), tx(2, 1), tx(3, 2)]));
    run.step(Event::BatchDone(vec![
        Outcome::FailedQuery("gone".to_string()),
        Outcome::FailedSubmit("refused".to_string()),
    ]));
    assert_eq!(run.pending(), Action::RetransmitLayer(1));
    assert_eq!(run.batch(), Some(&vec![id(3)]));
    run.step(Event::BatchDone(vec![Outcome::FailedSubmit("orphan".to_string())]));
    assert_eq!(run.pending(), Action::ReportSizes);
    assert_eq!(
        run.tally(),
        &RetransmitTally { failed_query: 1, failed_submit: 2, log: None }
    );
}

#[test]
fn an_unreachable_node_ends_the_run() {
    let mut run = MirrorRun::new(false, false, false);
    run.step(Event::NodeUnreachable(ClientType::Destination));
    assert_eq!(run.pending(), Action::Abort(Failure::Unreachable(ClientType::Destination)));
    assert_eq!(run.phase(), Phase::Failed(Failure::Unreachable(ClientType::Destination)));

    let mut run = MirrorRun::new(false, false, false);
    run.step(sizes(1, 1));
    run.step(Event::NodeUnreachable(ClientType::Source));
    assert_eq!(run.pending(), Action::Abort(Failure::Unreachable(ClientType::Source)));
    // a failed run stays failed
    run.step(sizes(1, 1));
    run.step(Event::Snapshot(vec![]));
    run.step(Event::NodeUnreachable(ClientType::Destination));
    assert_eq!(run.pending(), Action::Abort(Failure::Unreachable(ClientType::Source)));

    let mut run = MirrorRun::new(false, false, false);
    run.step(sizes(1, 1));
    run.step(Event::Snapshot(vec![tx(1, 1)]));
    // while a layer is sent no node is asked for its pool
    run.step(Event::NodeUnreachable(ClientType::Source));
    assert_eq!(run.pending(), Action::RetransmitLayer(0));
    run.step(sent(1));
    run.step(Event::NodeUnreachable(ClientType::Source));
    assert_eq!(run.pending(), Action::Abort(Failure::Unreachable(ClientType::Source)));
}

#[test]
fn a_snapshot_with_a_count_of_zero_ends_the_run() {
    let mut run = MirrorRun::new(false, true, false);
    run.step(sizes(1, 1));
    let lines = run.step(Event::Snapshot(vec![tx(1, 1), tx(2, 0)]));
    assert_eq!(lines, Vec::<String>::new());
    assert_eq!(run.pending(), Action::Abort(Failure::BadSnapshot));
}

#[test]
fn an_empty_snapshot_goes_straight_to_the_end() {
    let mut run = MirrorRun::new(false, false, false);
    run.step(sizes(0, 5));
    let lines = run.step(Event::Snapshot(vec![]));
    assert_eq!(lines, Vec::<String>::new());
    assert_eq!(run.pending(), Action::ReportSizes);
    assert_eq!(run.phase(), Phase::SizingAfter);
}

#[test]
fn a_quiet_run_says_the_sizes_and_the_closing_remark() {
    let mut run = MirrorRun::new(false, false, false);
    assert_eq!(
        run.step(sizes(12, 5)),
        vec!["\n# (Beginning)\t Transactions in source mempool/destination mempool: 12/5 (7 gap)"
            .to_string()]
    );
    assert_eq!(run.step(Event::Snapshot(vec![tx(1, 1)])), Vec::<String>::new());
    assert_eq!(run.step(Event::BatchDone(vec![Outcome::FailedQuery("x".to_string())])), Vec::<String>::new());
    assert_eq!(
        run.step(sizes(12, 13)),
        vec![
            "\n# (End)\t\t Transactions in source mempool/destination mempool: 12/13 (1 gap)"
                .to_string(),
            NOTE.to_string(),
        ]
    );
}

#[test]
fn a_verbose_run_lists_the_layers_and_reports_the_failures() {
    let mut run = MirrorRun::new(false, true, false);
    run.step(sizes(3, 0));
    assert_eq!(
        run.step(Event::Snapshot(vec![tx(1, 1), tx(2, 3), tx(3, 1)])),
        vec![
            "\nTransactions dependencies:\n".to_string(),
            "#Txs depending of 0 parents: 2".to_string(),
            "#Txs depending of 1 parents: 0".to_string(),
            "#Txs depending of 2 parents: 1".to_string(),
            "".to_string(),
        ]
    );
    assert_eq!(
        run.step(Event::BatchDone(vec![Outcome::Sent, Outcome::FailedQuery("gone".to_string())])),
        Vec::<String>::new()
    );
    assert_eq!(run.step(sent(0)), Vec::<String>::new());
    assert_eq!(
        run.step(Event::BatchDone(vec![Outcome::FailedSubmit("orphan".to_string())])),
        vec![
            format!("Failed source TxId: 0x{} Reason: gone", "03".repeat(32)),
            format!("Failed destination TxId: 0x{} Reason: orphan", "02".repeat(32)),
            "\n#Failed queried txs: 1".to_string(),
            "#Failed sent txs: 1".to_string(),
            "\nFailed queried transactions (if any) are because of transactions removed from mempool while executing this program. i.e. RBF txs".to_string(),
            "\nFailed sent transactions (if any) are because of parent transaction removed from mempool while executing this program.".to_string(),
        ]
    );
    assert_eq!(run.pending(), Action::ReportSizes);
}

#[test]
fn a_verbose_run_with_a_feed_reports_the_failures_after_the_queue() {
    let mut run = MirrorRun::new(false, true, true);
    run.step(Event::FeedReady);
    run.step(sizes(1, 0));
    run.step(Event::Snapshot(vec![tx(1, 1)]));
    assert_eq!(run.step(sent(1)), Vec::<String>::new());
    run.step(Event::Drained(vec![id(4)]));
    assert_eq!(
        run.step(Event::BatchDone(vec![Outcome::FailedQuery("gone".to_string())])),
        vec![
            "Done. Sent 1 additional transactions from ZMQ iterface".to_string(),
            format!("Failed source TxId: 0x{} Reason: gone", "04".repeat(32)),
            "\n#Failed queried txs: 1".to_string(),
            "#Failed sent txs: 0".to_string(),
            "\nFailed queried transactions (if any) are because of transactions removed from mempool while executing this program. i.e. RBF txs".to_string(),
            "\nFailed sent transactions (if any) are because of parent transaction removed from mempool while executing this program.".to_string(),
        ]
    );
}
