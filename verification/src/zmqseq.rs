//! The live feed: one record per change of the publisher's pool or chain.
//!
//! A record is 32 bytes of hash, one tag byte, and for the two transaction
//! tags an eight-byte little-endian sequence number.

use crate::hex::{encode, lower_hex};
use crate::txid::{ids_text, lemma_hash_text_is_txid, Txid};
use vstd::prelude::*;
use vstd::slice::slice_subrange;

verus! {

/// Tag of a record that announces a connected block (`C`).
pub const TAG_BLOCK_CONNECTED: u8 = 67;

/// Tag of a record that announces a disconnected block (`D`).
pub const TAG_BLOCK_DISCONNECTED: u8 = 68;

/// Tag of a record that announces a transaction leaving the pool (`R`).
pub const TAG_TX_REMOVED: u8 = 82;

/// Tag of a record that announces a transaction entering the pool (`A`).
pub const TAG_TX_ADDED: u8 = 65;

/// Why a record could not be read.
#[derive(Debug, Clone, Copy, PartialEq, Eq, Structural)]
pub enum MalformedEvent {
    /// The record ends before the tag, or before the end of the sequence
    /// number that its tag calls for.
    Truncated,
    /// The tag byte is none of the four known ones.
    UnknownTag(u8),
}

/// One change, as the publisher announced it.
#[derive(Debug, PartialEq, Eq)]
pub enum MempoolSequence {
    BlockConnection(String),
    BlockDisconnection(String),
    TxRemoved { txid: Txid, seq_num: u64 },
    TxAdded { txid: Txid, seq_num: u64 },
}

/// What a `MempoolSequence` says, with texts as character sequences.
pub enum SequenceEvent {
    BlockConnection(Seq<char>),
    BlockDisconnection(Seq<char>),
    TxRemoved { txid: Seq<char>, seq_num: u64 },
    TxAdded { txid: Seq<char>, seq_num: u64 },
}

impl View for MempoolSequence {
    type V = SequenceEvent;

    open spec fn view(&self) -> SequenceEvent {
        match *self {
            MempoolSequence::BlockConnection(hash) => SequenceEvent::BlockConnection(hash@),
            MempoolSequence::BlockDisconnection(hash) => SequenceEvent::BlockDisconnection(hash@),
            MempoolSequence::TxRemoved { txid, seq_num } => SequenceEvent::TxRemoved {
                txid: txid@,
                seq_num,
            },
            MempoolSequence::TxAdded { txid, seq_num } => SequenceEvent::TxAdded {
                txid: txid@,
                seq_num,
            },
        }
    }
}

/// The number that eight bytes spell, least significant byte first.
pub open spec fn le_u64(bytes: Seq<u8>) -> int {
    bytes[0] as int + bytes[1] as int * 0x100 + bytes[2] as int * 0x1_0000 + bytes[3] as int
        * 0x100_0000 + bytes[4] as int * 0x1_0000_0000 + bytes[5] as int * 0x100_0000_0000
        + bytes[6] as int * 0x1_0000_0000_0000 + bytes[7] as int * 0x100_0000_0000_0000
}

/// The eight bytes that spell a number, least significant byte first.
pub open spec fn le_bytes(n: u64) -> Seq<u8> {
    seq![
        (n % 0x100) as u8,
        (n / 0x100 % 0x100) as u8,
        (n / 0x1_0000 % 0x100) as u8,
        (n / 0x100_0000 % 0x100) as u8,
        (n / 0x1_0000_0000 % 0x100) as u8,
        (n / 0x100_0000_0000 % 0x100) as u8,
        (n / 0x1_0000_0000_0000 % 0x100) as u8,
        (n / 0x100_0000_0000_0000 % 0x100) as u8,
    ]
}

/// What a record means.
///
/// A record shorter than 33 bytes has no tag and is truncated. The tags `C`
/// and `D` carry nothing after the tag. The tags `R` and `A` are followed by
/// a sequence number; a record that ends before byte 41 is truncated. Any
/// other tag is unknown.
pub open spec fn decoded(record: Seq<u8>) -> Result<SequenceEvent, MalformedEvent> {
    if record.len() < 33 {
        Err(MalformedEvent::Truncated)
    } else {
        let hash = lower_hex(record.subrange(0, 32));
        let tag = record[32];
        if tag == TAG_BLOCK_CONNECTED {
            Ok(SequenceEvent::BlockConnection(hash))
        } else if tag == TAG_BLOCK_DISCONNECTED {
            Ok(SequenceEvent::BlockDisconnection(hash))
        } else if tag == TAG_TX_REMOVED || tag == TAG_TX_ADDED {
            if record.len() < 41 {
                Err(MalformedEvent::Truncated)
            } else {
                let seq_num = le_u64(record.subrange(33, 41)) as u64;
                if tag == TAG_TX_REMOVED {
                    Ok(SequenceEvent::TxRemoved { txid: hash, seq_num })
                } else {
                    Ok(SequenceEvent::TxAdded { txid: hash, seq_num })
                }
            }
        } else {
            Err(MalformedEvent::UnknownTag(tag))
        }
    }
}

/// The view of a decoding result.
pub open spec fn result_view(r: Result<MempoolSequence, MalformedEvent>) -> Result<
    SequenceEvent,
    MalformedEvent,
> {
    match r {
        Ok(event) => Ok(event@),
        Err(e) => Err(e),
    }
}

impl MalformedEvent {
    /// A short description for logs.
    pub fn message(&self) -> (text: &'static str)
        ensures
            *self is Truncated ==> text@ == "Not enough size"@,
            *self is UnknownTag ==> text@ == "Invalid char code in message"@,
    {
        match self {
            MalformedEvent::Truncated => "Not enough size",
            MalformedEvent::UnknownTag(_) => "Invalid char code in message",
        }
    }
}

/// Reads the sequence number that starts at byte 33.
fn sequence_number(record: &[u8]) -> (n: u64)
    requires
        record@.len() >= 41,
    ensures
        n == le_u64(record@.subrange(33, 41)),
{
    let n: u64 = record[33] as u64 + record[34] as u64 * 0x100 + record[35] as u64 * 0x1_0000
        + record[36] as u64 * 0x100_0000 + record[37] as u64 * 0x1_0000_0000 + record[38] as u64
        * 0x100_0000_0000 + record[39] as u64 * 0x1_0000_0000_0000 + record[40] as u64
        * 0x100_0000_0000_0000;
    n
}

impl MempoolSequence {
    /// Reads one record of the feed.
    pub fn decode(record: &[u8]) -> (r: Result<MempoolSequence, MalformedEvent>)
        ensures
            result_view(r) == decoded(record@),
    {
        if record.len() < 33 {
            return Err(MalformedEvent::Truncated);
        }
        let tag: u8 = record[32];
        let hash = encode(slice_subrange(record, 0, 32));
        if tag == TAG_BLOCK_CONNECTED {
            Ok(MempoolSequence::BlockConnection(hash))
        } else if tag == TAG_BLOCK_DISCONNECTED {
            Ok(MempoolSequence::BlockDisconnection(hash))
        } else if tag == TAG_TX_REMOVED || tag == TAG_TX_ADDED {
            if record.len() < 41 {
                return Err(MalformedEvent::Truncated);
            }
            let seq_num = sequence_number(record);
            proof {
                lemma_hash_text_is_txid(record@.subrange(0, 32));
            }
            let txid = Txid::new(hash);
            if tag == TAG_TX_REMOVED {
                Ok(MempoolSequence::TxRemoved { txid, seq_num })
            } else {
                Ok(MempoolSequence::TxAdded { txid, seq_num })
            }
        } else {
            Err(MalformedEvent::UnknownTag(tag))
        }
    }
}

/// A record built from a hash, a tag and a sequence number.
pub open spec fn record_of(hash: Seq<u8>, tag: u8, seq_num: u64) -> Seq<u8> {
    if tag == TAG_TX_REMOVED || tag == TAG_TX_ADDED {
        hash.push(tag) + le_bytes(seq_num)
    } else {
        hash.push(tag)
    }
}

/// Eight bytes spell the number they were made from.
pub proof fn lemma_le_bytes_spell(n: u64)
    ensures
        le_bytes(n).len() == 8,
        le_u64(le_bytes(n)) == n,
{
    assert(n == (n % 0x100) + (n / 0x100 % 0x100) * 0x100 + (n / 0x1_0000 % 0x100) * 0x1_0000 + (n
        / 0x100_0000 % 0x100) * 0x100_0000 + (n / 0x1_0000_0000 % 0x100) * 0x1_0000_0000 + (n
        / 0x100_0000_0000 % 0x100) * 0x100_0000_0000 + (n / 0x1_0000_0000_0000 % 0x100)
        * 0x1_0000_0000_0000 + (n / 0x100_0000_0000_0000 % 0x100) * 0x100_0000_0000_0000)
        by (bit_vector);
}

/// A record gives back what it was built from: the hash in lowercase
/// hexadecimal and, under the two transaction tags, the sequence number.
/// Under any other tag than the four known ones it is refused.
pub proof fn lemma_decode_round_trip(hash: Seq<u8>, tag: u8, seq_num: u64)
    requires
        hash.len() == 32,
    ensures
        tag == TAG_BLOCK_CONNECTED ==> decoded(record_of(hash, tag, seq_num)) == Ok::<
            SequenceEvent,
            MalformedEvent,
        >(SequenceEvent::BlockConnection(lower_hex(hash))),
        tag == TAG_BLOCK_DISCONNECTED ==> decoded(record_of(hash, tag, seq_num)) == Ok::<
            SequenceEvent,
            MalformedEvent,
        >(SequenceEvent::BlockDisconnection(lower_hex(hash))),
        tag == TAG_TX_REMOVED ==> decoded(record_of(hash, tag, seq_num)) == Ok::<
            SequenceEvent,
            MalformedEvent,
        >(SequenceEvent::TxRemoved { txid: lower_hex(hash), seq_num }),
        tag == TAG_TX_ADDED ==> decoded(record_of(hash, tag, seq_num)) == Ok::<
            SequenceEvent,
            MalformedEvent,
        >(SequenceEvent::TxAdded { txid: lower_hex(hash), seq_num }),
        tag != TAG_BLOCK_CONNECTED && tag != TAG_BLOCK_DISCONNECTED && tag != TAG_TX_REMOVED && tag
            != TAG_TX_ADDED ==> decoded(record_of(hash, tag, seq_num)) == Err::<
            SequenceEvent,
            MalformedEvent,
        >(MalformedEvent::UnknownTag(tag)),
{
    let record = record_of(hash, tag, seq_num);
    assert(record.subrange(0, 32) =~= hash);
    if tag == TAG_TX_REMOVED || tag == TAG_TX_ADDED {
        lemma_le_bytes_spell(seq_num);
    }
}

/// A record under a tag that is none of the four known ones is refused,
/// whatever else it holds.
pub proof fn lemma_unknown_tag_refused(record: Seq<u8>)
    requires
        record.len() >= 33,
        record[32] != TAG_BLOCK_CONNECTED,
        record[32] != TAG_BLOCK_DISCONNECTED,
        record[32] != TAG_TX_REMOVED,
        record[32] != TAG_TX_ADDED,
    ensures
        decoded(record) == Err::<SequenceEvent, MalformedEvent>(
            MalformedEvent::UnknownTag(record[32]),
        ),
{
}

/// A record that ends before its tag is refused as truncated.
pub proof fn lemma_short_record_refused(record: Seq<u8>)
    requires
        record.len() < 33,
    ensures
        decoded(record) == Err::<SequenceEvent, MalformedEvent>(MalformedEvent::Truncated),
{
}

/// Where a listener stands.
#[derive(Debug, Clone, Copy, PartialEq, Eq, Structural)]
pub enum ListenerState {
    /// Nothing has been asked of the publisher yet.
    Created,
    /// The subscription stands; no record has arrived yet.
    SubscriptionEstablished,
    /// At least one record has arrived.
    Running,
    /// The listener has seen the request to stop and receives no more.
    StopRequested,
    /// The queue has been handed over.
    Terminated,
}

/// What became of one message of the feed.
#[derive(Debug, Clone, Copy, PartialEq, Eq, Structural)]
pub enum Delivery {
    /// It announced a new transaction, whose identifier joined the queue.
    Queued,
    /// It announced something else, and was passed over.
    Passed,
    /// Its record could not be read, and was skipped.
    Skipped(MalformedEvent),
    /// It came under another topic, and was skipped.
    WrongTopic,
    /// The listener was not listening.
    Dropped,
}

/// What the listener answers to one message.
#[derive(Debug, Clone, Copy, PartialEq, Eq, Structural)]
pub struct Receipt {
    /// Set for the first message since the subscription, and for no other:
    /// whoever waits for the listener to be live is to be released now.
    pub release: bool,
    pub delivery: Delivery,
}

/// The part of a listener that lives between the socket and the queue.
///
/// The caller owns the socket and the thread. It reports the subscription,
/// asks before each receive whether to go on, hands over each message, and
/// in the end takes the queue.
#[derive(Debug)]
pub struct ZmqThread {
    state: ListenerState,
    queue: Vec<Txid>,
}

/// What a listener holds: its state, and the texts of the queued
/// identifiers, oldest first.
pub struct ListenerView {
    pub state: ListenerState,
    pub queue: Seq<Seq<char>>,
}

impl View for ZmqThread {
    type V = ListenerView;

    closed spec fn view(&self) -> ListenerView {
        ListenerView { state: self.state, queue: ids_text(self.queue@) }
    }
}

/// The topic `sequence`, as the bytes of a message's first frame.
pub open spec fn is_sequence_topic(topic: Seq<u8>) -> bool {
    topic == seq![115u8, 101u8, 113u8, 117u8, 101u8, 110u8, 99u8, 101u8]
}

/// Whether a listener in this state takes messages.
pub open spec fn is_listening(state: ListenerState) -> bool {
    state is SubscriptionEstablished || state is Running
}

/// How far a listener has come on its way from its creation to its end.
pub open spec fn progress(state: ListenerState) -> nat {
    match state {
        ListenerState::Created => 0,
        ListenerState::SubscriptionEstablished => 1,
        ListenerState::Running => 2,
        ListenerState::StopRequested => 3,
        ListenerState::Terminated => 4,
    }
}

/// The state after the subscription is reported: only a listener that was
/// just created changes by it.
pub open spec fn subscribed_state(state: ListenerState) -> ListenerState {
    if state is Created {
        ListenerState::SubscriptionEstablished
    } else {
        state
    }
}

/// The state after the listener has asked whether to go on: one that takes
/// messages and sees the request to stop receives no more.
pub open spec fn polled_state(state: ListenerState, stop: bool) -> ListenerState {
    if is_listening(state) && stop {
        ListenerState::StopRequested
    } else {
        state
    }
}

/// The identifier that a message adds to the queue, if it adds one: the
/// message comes under the topic `sequence` and its record announces a new
/// transaction.
pub open spec fn added_txid(topic: Seq<u8>, body: Seq<u8>) -> Option<Seq<char>> {
    if is_sequence_topic(topic) {
        match decoded(body) {
            Ok(SequenceEvent::TxAdded { txid, seq_num }) => Some(txid),
            _ => None,
        }
    } else {
        None
    }
}

/// What becomes of a message that reaches a listener in this state.
pub open spec fn delivery_of(state: ListenerState, topic: Seq<u8>, body: Seq<u8>) -> Delivery {
    if !is_listening(state) {
        Delivery::Dropped
    } else if !is_sequence_topic(topic) {
        Delivery::WrongTopic
    } else {
        match decoded(body) {
            Ok(SequenceEvent::TxAdded { txid, seq_num }) => Delivery::Queued,
            Ok(_) => Delivery::Passed,
            Err(e) => Delivery::Skipped(e),
        }
    }
}

/// The listener after a message.
///
/// A listener that takes messages is running from its first message on, and
/// a new transaction joins the end of its queue. No other message changes
/// the queue, and a listener that takes no messages stays as it is.
pub open spec fn received(listener: ListenerView, topic: Seq<u8>, body: Seq<u8>) -> ListenerView {
    if is_listening(listener.state) {
        ListenerView {
            state: ListenerState::Running,
            queue: match added_txid(topic, body) {
                Some(txid) => listener.queue.push(txid),
                None => listener.queue,
            },
        }
    } else {
        listener
    }
}

/// The listener after a run of messages, each a topic and a record.
pub open spec fn received_all(listener: ListenerView, messages: Seq<(Seq<u8>, Seq<u8>)>) -> ListenerView
    decreases messages.len(),
{
    if messages.len() == 0 {
        listener
    } else {
        received(
            received_all(listener, messages.drop_last()),
            messages.last().0,
            messages.last().1,
        )
    }
}

/// The identifiers that a run of messages adds to the queue, in the order
/// of the messages.
pub open spec fn added_txids(messages: Seq<(Seq<u8>, Seq<u8>)>) -> Seq<Seq<char>> {
    messages.filter_map(|m: (Seq<u8>, Seq<u8>)| added_txid(m.0, m.1))
}

fn is_sequence(topic: &[u8]) -> (b: bool)
    ensures
        b == is_sequence_topic(topic@),
{
    let b = topic.len() == 8 && topic[0] == 115 && topic[1] == 101 && topic[2] == 113 && topic[3]
        == 117 && topic[4] == 101 && topic[5] == 110 && topic[6] == 99 && topic[7] == 101;
    proof {
        if b {
            assert(topic@ =~= seq![115u8, 101u8, 113u8, 117u8, 101u8, 110u8, 99u8, 101u8]);
        }
    }
    b
}

/// The topic to subscribe to.
pub fn sequence_topic() -> (topic: Vec<u8>)
    ensures
        is_sequence_topic(topic@),
{
    let mut topic: Vec<u8> = Vec::new();
    topic.push(115);
    topic.push(101);
    topic.push(113);
    topic.push(117);
    topic.push(101);
    topic.push(110);
    topic.push(99);
    topic.push(101);
    proof {
        assert(topic@ =~= seq![115u8, 101u8, 113u8, 117u8, 101u8, 110u8, 99u8, 101u8]);
    }
    topic
}

impl ZmqThread {
    /// A listener that has asked nothing of the publisher yet.
    pub fn spawn() -> (listener: ZmqThread)
        ensures
            listener@.state == ListenerState::Created,
            listener@.queue == Seq::<Seq<char>>::empty(),
    {
        let listener = ZmqThread { state: ListenerState::Created, queue: Vec::new() };
        listener
    }

    /// Where the listener stands.
    pub fn state(&self) -> (state: ListenerState)
        ensures
            state == self@.state,
    {
        self.state
    }

    /// How many identifiers wait in the queue.
    pub fn queued(&self) -> (n: usize)
        ensures
            n == self@.queue.len(),
    {
        self.queue.len()
    }

    /// Notes that the subscription stands. Only a listener that was just
    /// created changes by it.
    pub fn subscribed(&mut self)
        ensures
            final(self)@.queue == old(self)@.queue,
            final(self)@.state == subscribed_state(old(self)@.state),
    {
        match self.state {
            ListenerState::Created => {
                self.state = ListenerState::SubscriptionEstablished;
            },
            _ => {},
        }
    }

    /// Says whether to wait for another message, given whether a stop has
    /// been asked for.
    ///
    /// A listener that takes messages goes on until it sees the request, and
    /// then receives no more. The request is looked at only here, between
    /// two messages: it takes effect when the message being waited for has
    /// come.
    pub fn poll(&mut self, stop: bool) -> (go_on: bool)
        ensures
            final(self)@.queue == old(self)@.queue,
            go_on == (is_listening(old(self)@.state) && !stop),
            final(self)@.state == polled_state(old(self)@.state, stop),
    {
        match self.state {
            ListenerState::SubscriptionEstablished | ListenerState::Running => {
                if stop {
                    self.state = ListenerState::StopRequested;
                    false
                } else {
                    true
                }
            },
            _ => false,
        }
    }

    /// Takes one message of the feed: the topic it came under and its
    /// record.
    pub fn on_message(&mut self, topic: &[u8], body: &[u8]) -> (receipt: Receipt)
        ensures
            final(self)@ == received(old(self)@, topic@, body@),
            receipt.release == (old(self)@.state is SubscriptionEstablished),
            receipt.delivery == delivery_of(old(self)@.state, topic@, body@),
    {
        let release = match self.state {
            ListenerState::SubscriptionEstablished => true,
            ListenerState::Running => false,
            _ => {
                return Receipt { release: false, delivery: Delivery::Dropped };
            },
        };
        self.state = ListenerState::Running;
        if !is_sequence(topic) {
            return Receipt { release, delivery: Delivery::WrongTopic };
        }
        let delivery = match MempoolSequence::decode(body) {
            Ok(MempoolSequence::TxAdded { txid, seq_num: _ }) => {
                let ghost before = self.queue@;
                self.queue.push(txid);
                proof {
                    assert(ids_text(self.queue@) =~= ids_text(before).push(txid@));
                }
                Delivery::Queued
            },
            Ok(_) => Delivery::Passed,
            Err(e) => Delivery::Skipped(e),
        };
        Receipt { release, delivery }
    }

    /// Ends the listener and hands over the queued identifiers, oldest
    /// first.
    pub fn stop_and_drain(&mut self) -> (ids: Vec<Txid>)
        ensures
            ids_text(ids@) == old(self)@.queue,
            final(self)@.state == ListenerState::Terminated,
            final(self)@.queue == Seq::<Seq<char>>::empty(),
    {
        self.state = ListenerState::Terminated;
        let mut ids: Vec<Txid> = Vec::new();
        std::mem::swap(&mut ids, &mut self.queue);
        ids
    }

    /// Ends the listener and calls `op` on each queued identifier, oldest
    /// first. Returns how many there were.
    pub fn for_each<F>(self, op: F) -> (count: usize) where F: Fn(&Txid)
        requires
            forall|id: &Txid| op.requires((id,)),
        ensures
            count == self@.queue.len(),
            exists|ids: Seq<Txid>|
                ids_text(ids) == self@.queue && forall|k: int|
                    0 <= k < ids.len() ==> op.ensures((&#[trigger] ids[k],), ()),
    {
        let mut listener = self;
        let ids = listener.stop_and_drain();
        let mut counter: usize = 0;
        while counter < ids.len()
            invariant
                counter <= ids@.len(),
                forall|id: &Txid| op.requires((id,)),
                forall|k: int| 0 <= k < counter ==> op.ensures((&#[trigger] ids@[k],), ()),
            decreases ids@.len() - counter,
        {
            op(&ids[counter]);
            counter += 1;
        }
        counter
    }
}

/// A listener never goes back: whatever is done with it, it stays where
/// it is or moves on towards its end, and an identifier once queued stays
/// queued until the queue is handed over.
pub proof fn lemma_listener_never_goes_back(
    listener: ListenerView,
    topic: Seq<u8>,
    body: Seq<u8>,
    stop: bool,
)
    ensures
        progress(subscribed_state(listener.state)) >= progress(listener.state),
        progress(polled_state(listener.state, stop)) >= progress(listener.state),
        progress(received(listener, topic, body).state) >= progress(listener.state),
        progress(ListenerState::Terminated) >= progress(listener.state),
        listener.queue.is_prefix_of(received(listener, topic, body).queue),
{
}

/// The queue keeps the order of arrival: after a run of messages, a
/// listener that was taking messages holds what it held, followed by the
/// identifiers of the new transactions among the messages, in their order.
pub proof fn lemma_queue_keeps_arrival_order(
    listener: ListenerView,
    messages: Seq<(Seq<u8>, Seq<u8>)>,
)
    requires
        is_listening(listener.state),
    ensures
        received_all(listener, messages).queue == listener.queue + added_txids(messages),
        is_listening(received_all(listener, messages).state),
        messages.len() > 0 ==> received_all(listener, messages).state is Running,
    decreases messages.len(),
{
    if messages.len() > 0 {
        lemma_queue_keeps_arrival_order(listener, messages.drop_last());
    }
}

} // verus!
