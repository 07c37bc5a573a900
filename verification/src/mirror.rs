//! The order of a run.
//!
//! A run listens to the feed first, if there is one, and only then takes
//! the snapshot, so that no transaction falls between the two. It sends the
//! layers of the snapshot one after the other, each only when the one
//! before is through, then what the feed announced meanwhile, and ends with
//! its report. The caller does what `pending` names and hands the result
//! to `step`.

use crate::layers::{
    counts_are_positive,
    counts_positive,
    get_mempool_layers,
    layers_of,
    layers_view,
    lemma_max_ancestor_count,
    TxDepth,
};
use crate::report::{
    bucket_sizes,
    catch_up_line,
    catch_up_text,
    closing_note,
    failed_txs_lines,
    failure_report,
    layer_listing,
    list_mempool_layers,
    mempool_sizes_line,
    sizes_line,
};
use crate::retransmit::{tally_after, texts, ClientType, Outcome, RetransmitTally, TallyView};
use crate::txid::Txid;
use vstd::prelude::*;

verus! {

/// Why a run has failed.
#[derive(Debug, Clone, Copy, PartialEq, Eq, Structural)]
pub enum Failure {
    /// This node did not answer when it was asked for its pool.
    Unreachable(ClientType),
    /// The snapshot holds a transaction that counts no ancestor, not even
    /// itself.
    BadSnapshot,
}

/// Where a run stands: what it waits for.
#[derive(Debug, Clone, Copy, PartialEq, Eq, Structural)]
pub enum Phase {
    /// The first record of the feed.
    AwaitingFeed,
    /// The sizes of the two pools before the copy.
    SizingBefore,
    /// The snapshot of the source pool.
    Snapshotting,
    /// The outcomes of the layer of this index.
    Layer(usize),
    /// What the feed announced during the copy.
    Draining,
    /// The outcomes of what the feed announced.
    CatchingUp,
    /// The sizes of the two pools after the copy.
    SizingAfter,
    /// Nothing: the run is through.
    Done,
    /// Nothing: the run has failed, for the reason held.
    Failed(Failure),
}

/// What the caller is to do next.
#[derive(Debug, Clone, Copy, PartialEq, Eq, Structural)]
pub enum Action {
    /// Start the listener, and come back when its first record has arrived.
    StartFeed,
    /// Ask both nodes for the size of their pools.
    ReportSizes,
    /// Take the snapshot of the source pool, in one call if `fast` is set.
    TakeSnapshot { fast: bool },
    /// Copy every transaction of the layer of this index, and come back
    /// when all of them are through.
    RetransmitLayer(usize),
    /// Stop the listener and take its queue.
    StopFeed,
    /// Copy every transaction that the feed announced.
    RetransmitCatchUp,
    /// Nothing more: the run is through.
    Finish,
    /// Nothing more: the run has failed, for the reason held.
    Abort(Failure),
}

/// What the caller has done or found.
#[derive(Debug, PartialEq, Eq)]
pub enum Event {
    /// The listener has received its first record.
    FeedReady,
    /// Both nodes have told the size of their pools.
    Sizes { source_size: usize, dest_size: usize },
    /// The source node has given its snapshot.
    Snapshot(Vec<TxDepth>),
    /// Every transaction of the batch is through; the outcomes stand in the
    /// order of the batch.
    BatchDone(Vec<Outcome>),
    /// The listener has ended and handed over its queue.
    Drained(Vec<Txid>),
    /// A node did not answer.
    NodeUnreachable(ClientType),
}

/// One run of the copy.
#[derive(Debug)]
pub struct MirrorRun {
    fast_mode: bool,
    verbose: bool,
    live_feed: bool,
    phase: Phase,
    layers: Vec<Vec<Txid>>,
    catch_up: Vec<Txid>,
    tally: RetransmitTally,
}

/// What a run holds.
pub struct RunView {
    pub fast_mode: bool,
    pub verbose: bool,
    pub live_feed: bool,
    pub phase: Phase,
    pub layers: Seq<Seq<Txid>>,
    pub catch_up: Seq<Txid>,
    pub tally: TallyView,
}

impl View for MirrorRun {
    type V = RunView;

    closed spec fn view(&self) -> RunView {
        RunView {
            fast_mode: self.fast_mode,
            verbose: self.verbose,
            live_feed: self.live_feed,
            phase: self.phase,
            layers: layers_view(self.layers@),
            catch_up: self.catch_up@,
            tally: self.tally@,
        }
    }
}

/// What the caller of a run in this state is to do.
pub open spec fn pending(run: RunView) -> Action {
    match run.phase {
        Phase::AwaitingFeed => Action::StartFeed,
        Phase::SizingBefore => Action::ReportSizes,
        Phase::Snapshotting => Action::TakeSnapshot { fast: run.fast_mode },
        Phase::Layer(index) => Action::RetransmitLayer(index),
        Phase::Draining => Action::StopFeed,
        Phase::CatchingUp => Action::RetransmitCatchUp,
        Phase::SizingAfter => Action::ReportSizes,
        Phase::Done => Action::Finish,
        Phase::Failed(failure) => Action::Abort(failure),
    }
}

/// The identifiers that the caller is to copy now, where it is to copy any.
pub open spec fn batch_of(run: RunView) -> Option<Seq<Txid>> {
    match run.phase {
        Phase::Layer(index) => if index < run.layers.len() {
            Some(run.layers[index as int])
        } else {
            None
        },
        Phase::CatchingUp => Some(run.catch_up),
        _ => None,
    }
}

/// The first state of a run.
pub open spec fn started(fast_mode: bool, verbose: bool, live_feed: bool) -> RunView {
    RunView {
        fast_mode,
        verbose,
        live_feed,
        phase: if live_feed {
            Phase::AwaitingFeed
        } else {
            Phase::SizingBefore
        },
        layers: Seq::empty(),
        catch_up: Seq::empty(),
        tally: TallyView {
            failed_query: 0,
            failed_submit: 0,
            log: if verbose {
                Some(Seq::empty())
            } else {
                None
            },
        },
    }
}

/// What follows the last layer: the queue of the feed, if there is a feed,
/// else the sizes after the copy.
pub open spec fn after_layers(run: RunView) -> Phase {
    if run.live_feed {
        Phase::Draining
    } else {
        Phase::SizingAfter
    }
}

/// Whether the outcomes answer the batch that the run waits for: one for
/// each identifier.
pub open spec fn answers_batch(run: RunView, outcomes: Seq<Outcome>) -> bool {
    match batch_of(run) {
        Some(batch) => outcomes.len() == batch.len(),
        None => false,
    }
}

/// The run after an event.
///
/// An event that the run does not wait for leaves it as it is. An
/// unreachable node ends the run where the run has asked a node for its pool,
/// and so does a snapshot with a transaction that counts no ancestor, not
/// even itself. The outcomes of a batch enter the tally, whatever they are,
/// and the run goes on.
pub open spec fn next(run: RunView, event: Event) -> RunView {
    match (run.phase, event) {
        (Phase::AwaitingFeed, Event::FeedReady) => RunView { phase: Phase::SizingBefore, ..run },
        (Phase::SizingBefore, Event::Sizes { .. }) => RunView { phase: Phase::Snapshotting, ..run },
        (Phase::SizingAfter, Event::Sizes { .. }) => RunView { phase: Phase::Done, ..run },
        (Phase::SizingBefore, Event::NodeUnreachable(node)) => RunView {
            phase: Phase::Failed(Failure::Unreachable(node)),
            ..run
        },
        (Phase::Snapshotting, Event::NodeUnreachable(node)) => RunView {
            phase: Phase::Failed(Failure::Unreachable(node)),
            ..run
        },
        (Phase::SizingAfter, Event::NodeUnreachable(node)) => RunView {
            phase: Phase::Failed(Failure::Unreachable(node)),
            ..run
        },
        (Phase::Snapshotting, Event::Snapshot(refs)) => if counts_positive(refs@) {
            RunView {
                layers: layers_of(refs@),
                phase: if layers_of(refs@).len() > 0 {
                    Phase::Layer(0)
                } else {
                    after_layers(run)
                },
                ..run
            }
        } else {
            RunView { phase: Phase::Failed(Failure::BadSnapshot), ..run }
        },
        (Phase::Layer(index), Event::BatchDone(outcomes)) => if answers_batch(run, outcomes@) {
            RunView {
                tally: tally_after(run.tally, run.layers[index as int], outcomes@),
                phase: if index + 1 < run.layers.len() {
                    Phase::Layer((index + 1) as usize)
                } else {
                    after_layers(run)
                },
                ..run
            }
        } else {
            run
        },
        (Phase::Draining, Event::Drained(ids)) => RunView {
            catch_up: ids@,
            phase: Phase::CatchingUp,
            ..run
        },
        (Phase::CatchingUp, Event::BatchDone(outcomes)) => if answers_batch(run, outcomes@) {
            RunView {
                tally: tally_after(run.tally, run.catch_up, outcomes@),
                phase: Phase::SizingAfter,
                ..run
            }
        } else {
            run
        },
        _ => run,
    }
}

/// What the run says at an event: the lines to show, in their order.
///
/// It says the sizes when it learns them, and closes with a remark. It lists
/// the layers when it has made them, if it is verbose. When it has sent the
/// queue of the feed it says how long the queue was. And when nothing is
/// left to send it reports the failures, if it is verbose.
pub open spec fn said(run: RunView, event: Event) -> Seq<Seq<char>> {
    let after = next(run, event);
    match (run.phase, event) {
        (Phase::SizingBefore, Event::Sizes { source_size, dest_size }) => seq![
            sizes_line("(Beginning)\t"@, source_size, dest_size),
        ],
        (Phase::SizingAfter, Event::Sizes { source_size, dest_size }) => seq![
            sizes_line("(End)\t\t"@, source_size, dest_size),
            "\nNote: Mempool sizes could not be the same at the end because of different peers connections, conflicting transactions or transaction arrival timing issues between nodes (among other causes)."@,
        ],
        (Phase::Snapshotting, Event::Snapshot(refs)) => if counts_positive(refs@) {
            let listing = if run.verbose {
                layer_listing(bucket_sizes(after.layers))
            } else {
                Seq::empty()
            };
            if after.phase is SizingAfter {
                listing + failure_report(after.tally)
            } else {
                listing
            }
        } else {
            Seq::empty()
        },
        (Phase::Layer(_), Event::BatchDone(outcomes)) => if answers_batch(run, outcomes@)
            && after.phase is SizingAfter {
            failure_report(after.tally)
        } else {
            Seq::empty()
        },
        (Phase::CatchingUp, Event::BatchDone(outcomes)) => if answers_batch(run, outcomes@) {
            seq![catch_up_line(run.catch_up.len())] + failure_report(after.tally)
        } else {
            Seq::empty()
        },
        _ => Seq::empty(),
    }
}

impl MirrorRun {
    /// A run at its start. It copies what the feed announces if `live_feed`
    /// is set, and keeps a log of the failures if `verbose` is.
    pub fn new(fast_mode: bool, verbose: bool, live_feed: bool) -> (run: MirrorRun)
        ensures
            run@ == started(fast_mode, verbose, live_feed),
            in_order(run@),
    {
        let phase = if live_feed {
            Phase::AwaitingFeed
        } else {
            Phase::SizingBefore
        };
        let run = MirrorRun {
            fast_mode,
            verbose,
            live_feed,
            phase,
            layers: Vec::new(),
            catch_up: Vec::new(),
            tally: RetransmitTally::new(verbose),
        };
        proof {
            assert(layers_view(run.layers@) =~= Seq::<Seq<Txid>>::empty());
        }
        run
    }

    /// Where the run stands.
    pub fn phase(&self) -> (phase: Phase)
        ensures
            phase == self@.phase,
    {
        self.phase
    }

    /// What the caller is to do next.
    pub fn pending(&self) -> (action: Action)
        ensures
            action == pending(self@),
    {
        match self.phase {
            Phase::AwaitingFeed => Action::StartFeed,
            Phase::SizingBefore => Action::ReportSizes,
            Phase::Snapshotting => Action::TakeSnapshot { fast: self.fast_mode },
            Phase::Layer(index) => Action::RetransmitLayer(index),
            Phase::Draining => Action::StopFeed,
            Phase::CatchingUp => Action::RetransmitCatchUp,
            Phase::SizingAfter => Action::ReportSizes,
            Phase::Done => Action::Finish,
            Phase::Failed(failure) => Action::Abort(failure),
        }
    }

    /// The identifiers that the caller is to copy now, where it is to copy
    /// any.
    pub fn batch(&self) -> (batch: Option<&Vec<Txid>>)
        ensures
            batch is Some <==> batch_of(self@) is Some,
            batch is Some ==> batch.unwrap()@ == batch_of(self@).unwrap(),
    {
        match self.phase {
            Phase::Layer(index) => if index < self.layers.len() {
                Some(&self.layers[index])
            } else {
                None
            },
            Phase::CatchingUp => Some(&self.catch_up),
            _ => None,
        }
    }

    /// The layers of the snapshot; none before the snapshot is taken.
    pub fn layers(&self) -> (layers: &Vec<Vec<Txid>>)
        ensures
            layers_view(layers@) == self@.layers,
    {
        &self.layers
    }

    /// The tally of the failures so far.
    pub fn tally(&self) -> (tally: &RetransmitTally)
        ensures
            tally@ == self@.tally,
    {
        &self.tally
    }

    fn leave_layers(&mut self, lines: &mut Vec<String>)
        ensures
            final(self)@ == (RunView { phase: after_layers(old(self)@), ..old(self)@ }),
            texts(final(lines)@) == if old(self)@.live_feed {
                texts(old(lines)@)
            } else {
                texts(old(lines)@) + failure_report(old(self)@.tally)
            },
    {
        if self.live_feed {
            self.phase = Phase::Draining;
        } else {
            let mut report = failed_txs_lines(&self.tally);
            lines.append(&mut report);
            self.phase = Phase::SizingAfter;
        }
    }

    /// Takes what the caller has done or found, and moves on. Returns the
    /// lines to show.
    pub fn step(&mut self, event: Event) -> (lines: Vec<String>)
        ensures
            final(self)@ == next(old(self)@, event),
            texts(lines@) == said(old(self)@, event),
            in_order(old(self)@) ==> in_order(final(self)@),
    {
        proof {
            if in_order(self@) {
                lemma_run_stays_in_order(self@, event);
            }
        }
        let mut lines: Vec<String> = Vec::new();
        match event {
            Event::FeedReady => {
                match self.phase {
                    Phase::AwaitingFeed => {
                        self.phase = Phase::SizingBefore;
                    },
                    _ => {},
                }
            },
            Event::Sizes { source_size, dest_size } => {
                match self.phase {
                    Phase::SizingBefore => {
                        let line = mempool_sizes_line("(Beginning)\t", source_size, dest_size);
                        lines.push(line);
                        self.phase = Phase::Snapshotting;
                    },
                    Phase::SizingAfter => {
                        let line = mempool_sizes_line("(End)\t\t", source_size, dest_size);
                        let note = closing_note();
                        lines.push(line);
                        lines.push(note);
                        self.phase = Phase::Done;
                    },
                    _ => {},
                }
            },
            Event::NodeUnreachable(node) => {
                match self.phase {
                    Phase::SizingBefore | Phase::Snapshotting | Phase::SizingAfter => {
                        self.phase = Phase::Failed(Failure::Unreachable(node));
                    },
                    _ => {},
                }
            },
            Event::Snapshot(refs) => {
                match self.phase {
                    Phase::Snapshotting => {
                        if counts_are_positive(&refs) {
                            self.layers = get_mempool_layers(refs);
                            lines = list_mempool_layers(self.verbose, &self.layers);
                            if self.layers.len() > 0 {
                                self.phase = Phase::Layer(0);
                            } else {
                                self.leave_layers(&mut lines);
                            }
                        } else {
                            self.phase = Phase::Failed(Failure::BadSnapshot);
                        }
                    },
                    _ => {},
                }
            },
            Event::BatchDone(outcomes) => {
                match self.phase {
                    Phase::Layer(index) => {
                        if index < self.layers.len() && outcomes.len() == self.layers[index].len() {
                            self.tally.record_all(&self.layers[index], &outcomes);
                            if index + 1 < self.layers.len() {
                                self.phase = Phase::Layer(index + 1);
                            } else {
                                self.leave_layers(&mut lines);
                            }
                        }
                    },
                    Phase::CatchingUp => {
                        if outcomes.len() == self.catch_up.len() {
                            self.tally.record_all(&self.catch_up, &outcomes);
                            let line = catch_up_text(self.catch_up.len());
                            lines.push(line);
                            let mut report = failed_txs_lines(&self.tally);
                            lines.append(&mut report);
                            self.phase = Phase::SizingAfter;
                        }
                    },
                    _ => {},
                }
            },
            Event::Drained(ids) => {
                match self.phase {
                    Phase::Draining => {
                        self.catch_up = ids;
                        self.phase = Phase::CatchingUp;
                    },
                    _ => {},
                }
            },
        }
        lines
    }
}

/// Every layer that the run waits for is one of its layers, and the
/// layers are no more than a machine can count.
pub open spec fn in_order(run: RunView) -> bool {
    &&& run.layers.len() <= usize::MAX
    &&& run.phase matches Phase::Layer(index) ==> index < run.layers.len()
}

/// A run waits only for layers that it has, from its start on and after
/// every event.
pub proof fn lemma_run_stays_in_order(run: RunView, event: Event)
    requires
        in_order(run),
    ensures
        in_order(next(run, event)),
        forall|fast_mode: bool, verbose: bool, live_feed: bool|
            in_order(#[trigger] started(fast_mode, verbose, live_feed)),
{
    match event {
        Event::Snapshot(refs) => {
            lemma_max_ancestor_count(refs@);
        },
        _ => {},
    }
}

/// The feed comes first. A run with a feed starts by waiting for the
/// listener, and nothing but the listener's first record moves it. The pool
/// sizes are asked for only after that, and the snapshot only after the
/// sizes.
pub proof fn lemma_feed_before_snapshot(run: RunView, event: Event)
    ensures
        run.live_feed ==> started(run.fast_mode, run.verbose, run.live_feed).phase
            is AwaitingFeed,
        run.phase is AwaitingFeed && !(event is FeedReady) ==> next(run, event) == run,
        run.phase is AwaitingFeed ==> next(run, event).phase is AwaitingFeed || next(
            run,
            event,
        ).phase is SizingBefore,
        next(run, event).phase is SizingBefore && !(run.phase is SizingBefore) ==> run.phase
            is AwaitingFeed && event is FeedReady,
        next(run, event).phase is Snapshotting && !(run.phase is Snapshotting) ==> run.phase
            is SizingBefore && event is Sizes,
{
}

/// The layers come in turn. The run comes to wait for the first layer by
/// the snapshot, and for any other layer only from the layer just before it,
/// by an event that brings an outcome for every transaction of that layer.
pub proof fn lemma_layers_in_turn(run: RunView, event: Event, index: usize)
    requires
        in_order(run),
        next(run, event).phase == Phase::Layer(index),
        run.phase != Phase::Layer(index),
    ensures
        index == 0 ==> run.phase is Snapshotting && event is Snapshot,
        index > 0 ==> run.phase == Phase::Layer((index - 1) as usize) && index - 1
            < run.layers.len() && (event matches Event::BatchDone(outcomes) && outcomes@.len()
            == run.layers[index - 1].len()),
        next(run, event).layers == run.layers || run.phase is Snapshotting,
{
}

/// No outcome stops a run. Whatever the outcomes of a batch are, failures
/// or not, the run takes them and waits for the same thing next as it would
/// after any other outcomes: for the next layer, for the queue of the feed
/// or for the sizes after the copy, never for nothing. What it hands out to
/// be copied next is the same too.
pub proof fn lemma_failures_do_not_stop_the_run(
    run: RunView,
    outcomes: Vec<Outcome>,
    others: Vec<Outcome>,
)
    requires
        in_order(run),
        outcomes@.len() == others@.len(),
    ensures
        next(run, Event::BatchDone(outcomes)).phase == next(run, Event::BatchDone(others)).phase,
        batch_of(next(run, Event::BatchDone(outcomes))) == batch_of(
            next(run, Event::BatchDone(others)),
        ),
        next(run, Event::BatchDone(outcomes)).layers == run.layers,
        next(run, Event::BatchDone(outcomes)).catch_up == run.catch_up,
        answers_batch(run, outcomes@) ==> next(run, Event::BatchDone(outcomes)).phase != run.phase
            && !(next(run, Event::BatchDone(outcomes)).phase is Failed) && !(next(
            run,
            Event::BatchDone(outcomes),
        ).phase is Done),
        answers_batch(run, outcomes@) && (run.phase matches Phase::Layer(index) && index + 1
            < run.layers.len()) ==> next(run, Event::BatchDone(outcomes)).phase == Phase::Layer(
            (run.phase->Layer_0 + 1) as usize,
        ),
{
}

/// Without a feed there is no listener: such a run neither starts one nor
/// stops one, and has nothing to catch up with.
pub proof fn lemma_no_feed_no_listener(run: RunView, event: Event)
    requires
        !run.live_feed,
        !(run.phase is AwaitingFeed),
        !(run.phase is Draining),
        !(run.phase is CatchingUp),
    ensures
        !(next(run, event).phase is AwaitingFeed),
        !(next(run, event).phase is Draining),
        !(next(run, event).phase is CatchingUp),
        !next(run, event).live_feed,
        next(run, event).catch_up == run.catch_up,
        forall|fast_mode: bool, verbose: bool| #[trigger]
            started(fast_mode, verbose, false).phase is SizingBefore && started(
                fast_mode,
                verbose,
                false,
            ).catch_up.len() == 0,
{
}

} // verus!
