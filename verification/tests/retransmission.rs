use mempoolcp::retransmit::{
    failure_text, retransmit, Attempt, ClientType, Outcome, RetransmitTally,
};
use mempoolcp::txid::Txid;

fn id(n: u8) -> Txid {
    Txid::from_hex(&format!("{:02x}", n).repeat(32)).expect("an identifier")
}

fn ok(text: &str) -> Result<String, String> {
    Ok(text.to_string())
}

fn err(text: &str) -> Result<String, String> {
    Err(text.to_string())
}

#[test]
fn a_fetched_transaction_is_submitted() {
    assert_eq!(retransmit(Attempt::Fetching, ok("0200")), Attempt::Submitting("0200".to_string()));
}

#[test]
fn a_failed_fetch_ends_the_attempt() {
    let end = retransmit(Attempt::Fetching, err("gone"));
    assert_eq!(end, Attempt::Finished(Outcome::FailedQuery("gone".to_string())));
    let still = retransmit(end, ok("0200"));
    assert_eq!(still, Attempt::Finished(Outcome::FailedQuery("gone".to_string())));
}

#[test]
fn an_accepted_submission_is_sent() {
    let end = retransmit(Attempt::Submitting("0200".to_string()), ok("id"));
    assert_eq!(end, Attempt::Finished(Outcome::Sent));
}

#[test]
fn a_refused_submission_is_a_failed_submission() {
    let end = retransmit(Attempt::Submitting("0200".to_string()), err("missing inputs"));
    assert_eq!(end, Attempt::Finished(Outcome::FailedSubmit("missing inputs".to_string())));
}

#[test]
fn a_new_tally_is_empty() {
    assert_eq!(
        RetransmitTally::new(false),
        RetransmitTally { failed_query: 0, failed_submit: 0, log: None }
    );
    assert_eq!(
        RetransmitTally::new(true),
        RetransmitTally { failed_query: 0, failed_submit: 0, log: Some(vec![]) }
    );
}

#[test]
fn success_leaves_no_trace() {
    let mut tally = RetransmitTally::new(true);
    tally.record(&id(1), &Outcome::Sent);
    assert_eq!(tally, RetransmitTally::new(true));
}

#[test]
fn failures_are_counted_by_kind() {
    let mut tally = RetransmitTally::new(false);
    tally.record(&id(1), &Outcome::FailedQuery("a".to_string()));
    tally.record(&id(2), &Outcome::FailedSubmit("b".to_string()));
    tally.record(&id(3), &Outcome::FailedSubmit("c".to_string()));
    assert_eq!(tally, RetransmitTally { failed_query: 1, failed_submit: 2, log: None });
}

#[test]
fn failures_are_logged_in_their_order() {
    let mut tally = RetransmitTally::new(true);
    tally.record(&id(0xab), &Outcome::FailedSubmit("Rejected".to_string()));
    tally.record(&id(0x01), &Outcome::FailedQuery("NotFound".to_string()));
    assert_eq!(
        tally.log,
        Some(vec![
            format!("Failed destination TxId: 0x{} Reason: Rejected", "ab".repeat(32)),
            format!("Failed source TxId: 0x{} Reason: NotFound", "01".repeat(32)),
        ])
    );
}

#[test]
fn a_failure_line_names_the_node_the_transaction_and_the_reason() {
    assert_eq!(
        failure_text(ClientType::Source, &id(0x5f), "no such tx"),
        format!("Failed source TxId: 0x{} Reason: no such tx", "5f".repeat(32))
    );
    assert_eq!(ClientType::Source.name(), "source");
    assert_eq!(ClientType::Destination.name(), "destination");
}

#[test]
fn sending_a_transaction_twice_counts_one_failed_submission() {
    let mut tally = RetransmitTally::new(false);
    for answer in [ok("txid"), err("txn-already-in-mempool")] {
        let mut attempt = retransmit(Attempt::Fetching, ok("0200"));
        attempt = retransmit(attempt, answer);
        match attempt {
            Attempt::Finished(outcome) => tally.record(&id(1), &outcome),
            other => panic!("unfinished: {:?}", other),
        }
    }
    assert_eq!(tally, RetransmitTally { failed_query: 0, failed_submit: 1, log: None });
}

#[test]
fn a_batch_is_recorded_in_its_order() {
    let ids = vec![id(1), id(2), id(3), id(4)];
    let outcomes = vec![
        Outcome::FailedQuery("q".to_string()),
        Outcome::Sent,
        Outcome::FailedSubmit("s".to_string()),
        Outcome::FailedQuery("r".to_string()),
    ];
    let mut tally = RetransmitTally::new(true);
    tally.record_all(&ids, &outcomes);
    assert_eq!(tally.failed_query, 2);
    assert_eq!(tally.failed_submit, 1);
    assert_eq!(
        tally.log,
        Some(vec![
            failure_text(ClientType::Source, &id(1), "q"),
            failure_text(ClientType::Destination, &id(3), "s"),
            failure_text(ClientType::Source, &id(4), "r"),
        ])
    );
}

#[test]
fn a_failed_query_does_not_keep_the_others_from_being_counted() {
    let ids = vec![id(1), id(2), id(3)];
    let all = vec![
        Outcome::FailedSubmit("a".to_string()),
        Outcome::FailedSubmit("b".to_string()),
        Outcome::FailedSubmit("c".to_string()),
    ];
    let one_failed = vec![
        Outcome::FailedSubmit("a".to_string()),
        Outcome::FailedQuery("gone".to_string()),
        Outcome::FailedSubmit("c".to_string()),
    ];
    let mut tally = RetransmitTally::new(false);
    tally.record_all(&ids, &all);
    assert_eq!((tally.failed_query, tally.failed_submit), (0, 3));
    let mut tally = RetransmitTally::new(false);
    tally.record_all(&ids, &one_failed);
    assert_eq!((tally.failed_query, tally.failed_submit), (1, 2));
}

#[test]
fn a_counter_starts_again_after_the_largest_number() {
    let mut tally = RetransmitTally { failed_query: usize::MAX, failed_submit: 7, log: None };
    tally.record(&id(1), &Outcome::FailedQuery("x".to_string()));
    assert_eq!(tally, RetransmitTally { failed_query: 0, failed_submit: 7, log: None });
}

#[test]
fn outcomes_that_do_not_answer_the_batch_are_not_taken() {
    let mut tally = RetransmitTally::new(true);
    tally.record_all(&vec![id(1), id(2)], &vec![Outcome::FailedQuery("q".to_string())]);
    assert_eq!(tally, RetransmitTally::new(true));
    tally.record_all(&vec![], &vec![Outcome::FailedQuery("q".to_string())]);
    assert_eq!(tally, RetransmitTally::new(true));
}
