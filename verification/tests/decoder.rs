use mempoolcp::zmqseq::{MalformedEvent, MempoolSequence};

fn hash() -> Vec<u8> {
    (0u8..32).map(|i| i.wrapping_mul(9).wrapping_add(3)).collect()
}

fn hash_text() -> String {
    "030c151e273039424b545d666f78818a939ca5aeb7c0c9d2dbe4edf6ff08111a".to_string()
}

fn record(tag: u8, tail: &[u8]) -> Vec<u8> {
    let mut bytes = hash();
    bytes.push(tag);
    bytes.extend_from_slice(tail);
    bytes
}

#[test]
fn hash_text_is_the_lowercase_hex_of_the_hash() {
    assert_eq!(hex::encode(hash()), hash_text());
}

#[test]
fn decodes_a_connected_block() {
    assert_eq!(
        MempoolSequence::decode(&record(b'C', &[])),
        Ok(MempoolSequence::BlockConnection(hash_text()))
    );
}

#[test]
fn decodes_a_disconnected_block() {
    assert_eq!(
        MempoolSequence::decode(&record(b'D', &[])),
        Ok(MempoolSequence::BlockDisconnection(hash_text()))
    );
}

#[test]
fn decodes_a_removed_transaction() {
    let n: u64 = 0x0102_0304_0506_0708;
    match MempoolSequence::decode(&record(b'R', &n.to_le_bytes())) {
        Ok(MempoolSequence::TxRemoved { txid, seq_num }) => {
            assert_eq!(txid.as_str(), hash_text());
            assert_eq!(seq_num, n);
        }
        other => panic!("unexpected: {:?}", other),
    }
}

#[test]
fn decodes_an_added_transaction() {
    let n: u64 = 513;
    match MempoolSequence::decode(&record(b'A', &[1, 2, 0, 0, 0, 0, 0, 0])) {
        Ok(MempoolSequence::TxAdded { txid, seq_num }) => {
            assert_eq!(txid.as_str(), hash_text());
            assert_eq!(seq_num, n);
        }
        other => panic!("unexpected: {:?}", other),
    }
}

#[test]
fn decodes_the_largest_sequence_number() {
    match MempoolSequence::decode(&record(b'A', &u64::MAX.to_le_bytes())) {
        Ok(MempoolSequence::TxAdded { seq_num, .. }) => assert_eq!(seq_num, u64::MAX),
        other => panic!("unexpected: {:?}", other),
    }
}

#[test]
fn the_sequence_number_is_little_endian() {
    match MempoolSequence::decode(&record(b'A', &[0, 0, 0, 0, 0, 0, 0, 1])) {
        Ok(MempoolSequence::TxAdded { seq_num, .. }) => assert_eq!(seq_num, 1u64 << 56),
        other => panic!("unexpected: {:?}", other),
    }
}

#[test]
fn bytes_after_the_record_are_ignored() {
    assert_eq!(
        MempoolSequence::decode(&record(b'C', &[9, 9, 9, 9])),
        Ok(MempoolSequence::BlockConnection(hash_text()))
    );
    match MempoolSequence::decode(&record(b'A', &[7, 0, 0, 0, 0, 0, 0, 0, 1, 2, 3, 4])) {
        Ok(MempoolSequence::TxAdded { seq_num, .. }) => assert_eq!(seq_num, 7),
        other => panic!("unexpected: {:?}", other),
    }
}

#[test]
fn refuses_an_unknown_tag() {
    for tag in 0u8..=255 {
        if tag == 67 || tag == 68 || tag == 82 || tag == 65 {
            continue;
        }
        assert_eq!(
            MempoolSequence::decode(&record(tag, &[0; 8])),
            Err(MalformedEvent::UnknownTag(tag))
        );
    }
}

#[test]
fn refuses_a_record_without_a_tag() {
    assert_eq!(MempoolSequence::decode(&[]), Err(MalformedEvent::Truncated));
    assert_eq!(MempoolSequence::decode(&hash()), Err(MalformedEvent::Truncated));
    assert_eq!(MempoolSequence::decode(&hash()[..31]), Err(MalformedEvent::Truncated));
}

#[test]
fn refuses_a_transaction_record_without_its_sequence_number() {
    assert_eq!(MempoolSequence::decode(&record(b'A', &[])), Err(MalformedEvent::Truncated));
    assert_eq!(
        MempoolSequence::decode(&record(b'R', &[1, 2, 3, 4, 5, 6, 7])),
        Err(MalformedEvent::Truncated)
    );
}

#[test]
fn a_malformed_event_says_what_is_wrong() {
    assert_eq!(MalformedEvent::UnknownTag(0).message(), "Invalid char code in message");
    assert_eq!(MalformedEvent::Truncated.message(), "Not enough size");
}
