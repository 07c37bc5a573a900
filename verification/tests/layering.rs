use mempoolcp::layers::{counts_are_positive, get_mempool_layers, get_tx_dept_vec, TxDepth};
use mempoolcp::txid::Txid;

fn id(n: u8) -> Txid {
    Txid::from_hex(&format!("{:02x}", n).repeat(32)).expect("an identifier")
}

fn tx(n: u8, ancestor_count: usize) -> TxDepth {
    TxDepth { ancestor_count, tx_id: id(n) }
}

#[test]
fn an_empty_snapshot_has_no_layers() {
    assert_eq!(get_mempool_layers(vec![]), Vec::<Vec<Txid>>::new());
}

#[test]
fn parents_come_in_the_first_bucket_and_their_child_in_the_second() {
    let layers = get_mempool_layers(vec![tx(0xa, 1), tx(0xb, 1), tx(0xc, 2)]);
    assert_eq!(layers, vec![vec![id(0xa), id(0xb)], vec![id(0xc)]]);
}

#[test]
fn each_bucket_holds_the_transactions_of_its_count_in_their_order() {
    let snapshot = vec![tx(1, 3), tx(2, 1), tx(3, 2), tx(4, 1), tx(5, 3), tx(6, 1)];
    let layers = get_mempool_layers(snapshot);
    assert_eq!(
        layers,
        vec![vec![id(2), id(4), id(6)], vec![id(3)], vec![id(1), id(5)]]
    );
    assert_eq!(layers.iter().map(|b| b.len()).sum::<usize>(), 6);
}

#[test]
fn a_count_that_no_transaction_has_leaves_its_bucket_empty() {
    let layers = get_mempool_layers(vec![tx(1, 4), tx(2, 1)]);
    assert_eq!(layers, vec![vec![id(2)], vec![], vec![], vec![id(1)]]);
}

#[test]
fn an_ancestor_lies_in_an_earlier_bucket() {
    // 1 <- 2 <- 3, and 4 <- 3: the counts are 1, 2, 4 and 1.
    let layers = get_mempool_layers(vec![tx(3, 4), tx(2, 2), tx(4, 1), tx(1, 1)]);
    let bucket_of = |t: &Txid| layers.iter().position(|b| b.contains(t)).expect("layered");
    assert!(bucket_of(&id(1)) < bucket_of(&id(2)));
    assert!(bucket_of(&id(2)) < bucket_of(&id(3)));
    assert!(bucket_of(&id(4)) < bucket_of(&id(3)));
    assert!(bucket_of(&id(1)) < bucket_of(&id(3)));
}

#[test]
fn a_single_transaction_is_a_single_bucket() {
    assert_eq!(get_mempool_layers(vec![tx(7, 1)]), vec![vec![id(7)]]);
}

#[test]
fn a_transaction_without_an_answer_is_left_out() {
    let answers = vec![(id(1), Some(2)), (id(2), None), (id(3), Some(1)), (id(4), None)];
    assert_eq!(get_tx_dept_vec(answers), vec![tx(1, 2), tx(3, 1)]);
}

#[test]
fn every_answer_is_kept_where_all_are_there() {
    let answers = vec![(id(1), Some(1)), (id(2), Some(5))];
    assert_eq!(get_tx_dept_vec(answers), vec![tx(1, 1), tx(2, 5)]);
    assert_eq!(get_tx_dept_vec(vec![]), vec![]);
}

#[test]
fn a_count_of_zero_is_told_apart() {
    assert!(counts_are_positive(&vec![]));
    assert!(counts_are_positive(&vec![tx(1, 1), tx(2, 9)]));
    assert!(!counts_are_positive(&vec![tx(1, 1), tx(2, 0)]));
}
