//! Copying one transaction from the source node to the destination node, and
//! keeping count of the transactions that could not be copied.
//!
//! The caller talks to the nodes. It starts with `Attempt::Fetching`, does
//! what the attempt stands for, and hands the node's answer to `retransmit`,
//! until the attempt is finished.

use crate::txid::Txid;
use vstd::prelude::*;
use vstd::string::*;

verus! {

/// Which of the two nodes is meant.
#[derive(Debug, Clone, Copy, PartialEq, Eq, Structural)]
pub enum ClientType {
    Source,
    Destination,
}

/// How the copy of one transaction ended.
#[derive(Debug, PartialEq, Eq)]
pub enum Outcome {
    /// The destination node took the transaction.
    Sent,
    /// The source node could not give the transaction, for the reason held.
    FailedQuery(String),
    /// The destination node refused the transaction, for the reason held.
    FailedSubmit(String),
}

/// How far the copy of one transaction has come.
#[derive(Debug, PartialEq, Eq)]
pub enum Attempt {
    /// The source node is to be asked for the raw transaction.
    Fetching,
    /// The raw transaction held is to be handed to the destination node.
    Submitting(String),
    /// Neither node is to be asked anything more.
    Finished(Outcome),
}

/// The attempt after a node's answer.
///
/// An answer to the fetch leads to the submission of what was fetched, a
/// refusal ends the attempt as a failed query. An answer to the submission
/// ends the attempt as sent, a refusal as a failed submission. A finished
/// attempt stays as it is.
pub open spec fn next_attempt(state: Attempt, reply: Result<String, String>) -> Attempt {
    match state {
        Attempt::Fetching => match reply {
            Ok(raw) => Attempt::Submitting(raw),
            Err(reason) => Attempt::Finished(Outcome::FailedQuery(reason)),
        },
        Attempt::Submitting(_) => match reply {
            Ok(_) => Attempt::Finished(Outcome::Sent),
            Err(reason) => Attempt::Finished(Outcome::FailedSubmit(reason)),
        },
        Attempt::Finished(outcome) => Attempt::Finished(outcome),
    }
}

/// Advances the copy of one transaction by one answer of a node.
pub fn retransmit(state: Attempt, reply: Result<String, String>) -> (next: Attempt)
    ensures
        next == next_attempt(state, reply),
{
    match state {
        Attempt::Fetching => match reply {
            Ok(raw) => Attempt::Submitting(raw),
            Err(reason) => Attempt::Finished(Outcome::FailedQuery(reason)),
        },
        Attempt::Submitting(_) => match reply {
            Ok(_) => Attempt::Finished(Outcome::Sent),
            Err(reason) => Attempt::Finished(Outcome::FailedSubmit(reason)),
        },
        Attempt::Finished(outcome) => Attempt::Finished(outcome),
    }
}

/// The counters of one run, and the log of failures where one is kept.
#[derive(Debug, PartialEq, Eq)]
pub struct RetransmitTally {
    /// Transactions that the source node could not give.
    pub failed_query: usize,
    /// Transactions that the destination node refused.
    pub failed_submit: usize,
    /// One line for each failure, oldest first; `None` where no log is kept.
    pub log: Option<Vec<String>>,
}

/// What a `RetransmitTally` holds, with texts as character sequences.
pub struct TallyView {
    pub failed_query: usize,
    pub failed_submit: usize,
    pub log: Option<Seq<Seq<char>>>,
}

/// The texts of some lines.
pub open spec fn texts(lines: Seq<String>) -> Seq<Seq<char>> {
    lines.map_values(|line: String| line@)
}

impl View for RetransmitTally {
    type V = TallyView;

    open spec fn view(&self) -> TallyView {
        TallyView {
            failed_query: self.failed_query,
            failed_submit: self.failed_submit,
            log: match self.log {
                Some(lines) => Some(texts(lines@)),
                None => None,
            },
        }
    }
}

/// The next value of a counter, which starts again at zero after the
/// largest number.
pub open spec fn bump(n: usize) -> usize {
    if n == usize::MAX {
        0
    } else {
        (n + 1) as usize
    }
}

/// How a node is called in the log.
pub open spec fn client_name(side: ClientType) -> Seq<char> {
    match side {
        ClientType::Source => "source"@,
        ClientType::Destination => "destination"@,
    }
}

/// The line that the log holds for a failure.
pub open spec fn failure_line(side: ClientType, txid: Seq<char>, reason: Seq<char>) -> Seq<char> {
    "Failed "@ + client_name(side) + " TxId: 0x"@ + txid + " Reason: "@ + reason
}

/// A log, where one is kept, with one more line.
pub open spec fn with_line(log: Option<Seq<Seq<char>>>, line: Seq<char>) -> Option<
    Seq<Seq<char>>,
> {
    match log {
        Some(lines) => Some(lines.push(line)),
        None => None,
    }
}

/// The tally after one more outcome.
///
/// A sent transaction leaves no trace. A failure raises the counter of its
/// kind by one and adds its line to the log.
pub open spec fn recorded(tally: TallyView, txid: Seq<char>, outcome: Outcome) -> TallyView {
    match outcome {
        Outcome::Sent => tally,
        Outcome::FailedQuery(reason) => TallyView {
            failed_query: bump(tally.failed_query),
            failed_submit: tally.failed_submit,
            log: with_line(tally.log, failure_line(ClientType::Source, txid, reason@)),
        },
        Outcome::FailedSubmit(reason) => TallyView {
            failed_query: tally.failed_query,
            failed_submit: bump(tally.failed_submit),
            log: with_line(tally.log, failure_line(ClientType::Destination, txid, reason@)),
        },
    }
}

/// The tally after the outcomes of a batch, taken in the order of the
/// batch. Outcomes that are not one for each identifier change nothing.
pub open spec fn tally_after(tally: TallyView, ids: Seq<Txid>, outcomes: Seq<Outcome>) -> TallyView
    decreases outcomes.len(),
{
    if outcomes.len() == 0 || ids.len() != outcomes.len() {
        tally
    } else {
        recorded(
            tally_after(tally, ids.drop_last(), outcomes.drop_last()),
            ids.last()@,
            outcomes.last(),
        )
    }
}

impl ClientType {
    /// How the node is called in the log.
    pub fn name(&self) -> (text: &'static str)
        ensures
            text@ == client_name(*self),
    {
        match self {
            ClientType::Source => "source",
            ClientType::Destination => "destination",
        }
    }
}

/// Writes the line that the log holds for a failure.
pub fn failure_text(side: ClientType, txid: &Txid, reason: &str) -> (line: String)
    ensures
        line@ == failure_line(side, txid@, reason@),
{
    let mut line = String::from_str("Failed ");
    line.append(side.name());
    line.append(" TxId: 0x");
    line.append(txid.as_str());
    line.append(" Reason: ");
    line.append(reason);
    line
}

fn bumped(n: usize) -> (m: usize)
    ensures
        m == bump(n),
{
    if n == usize::MAX {
        0
    } else {
        n + 1
    }
}

impl RetransmitTally {
    /// A tally of nothing. It keeps a log if `verbose` is set.
    pub fn new(verbose: bool) -> (tally: RetransmitTally)
        ensures
            tally.failed_query == 0,
            tally.failed_submit == 0,
            tally@.log == if verbose {
                Some(Seq::<Seq<char>>::empty())
            } else {
                None::<Seq<Seq<char>>>
            },
    {
        let log: Option<Vec<String>> = if verbose {
            Some(Vec::new())
        } else {
            None
        };
        RetransmitTally { failed_query: 0, failed_submit: 0, log }
    }

    fn note(&mut self, side: ClientType, txid: &Txid, reason: &str)
        ensures
            final(self).failed_query == old(self).failed_query,
            final(self).failed_submit == old(self).failed_submit,
            final(self)@.log == with_line(old(self)@.log, failure_line(side, txid@, reason@)),
    {
        match &mut self.log {
            Some(lines) => {
                let line = failure_text(side, txid, reason);
                lines.push(line);
            },
            None => {},
        }
    }

    /// Takes the outcome of one transaction into the tally.
    pub fn record(&mut self, txid: &Txid, outcome: &Outcome)
        ensures
            final(self)@ == recorded(old(self)@, txid@, *outcome),
    {
        match outcome {
            Outcome::Sent => {},
            Outcome::FailedQuery(reason) => {
                self.failed_query = bumped(self.failed_query);
                self.note(ClientType::Source, txid, reason.as_str());
            },
            Outcome::FailedSubmit(reason) => {
                self.failed_submit = bumped(self.failed_submit);
                self.note(ClientType::Destination, txid, reason.as_str());
            },
        }
    }

    /// Takes the outcomes of a batch into the tally, in the order of the
    /// batch. Outcomes that are not one for each identifier are not taken.
    pub fn record_all(&mut self, ids: &Vec<Txid>, outcomes: &Vec<Outcome>)
        ensures
            final(self)@ == tally_after(old(self)@, ids@, outcomes@),
    {
        if ids.len() != outcomes.len() {
            return ;
        }
        let mut k: usize = 0;
        while k < outcomes.len()
            invariant
                k <= outcomes@.len(),
                ids@.len() == outcomes@.len(),
                self@ == tally_after(old(self)@, ids@.take(k as int), outcomes@.take(k as int)),
            decreases outcomes@.len() - k,
        {
            proof {
                assert(ids@.take(k + 1).drop_last() =~= ids@.take(k as int));
                assert(outcomes@.take(k + 1).drop_last() =~= outcomes@.take(k as int));
            }
            self.record(&ids[k], &outcomes[k]);
            k += 1;
        }
        proof {
            assert(ids@.take(k as int) =~= ids@);
            assert(outcomes@.take(k as int) =~= outcomes@);
        }
    }
}

/// How many of the outcomes are failed queries.
pub open spec fn query_failures(outcomes: Seq<Outcome>) -> nat {
    outcomes.filter(|o: Outcome| o is FailedQuery).len()
}

/// How many of the outcomes are failed submissions.
pub open spec fn submit_failures(outcomes: Seq<Outcome>) -> nat {
    outcomes.filter(|o: Outcome| o is FailedSubmit).len()
}

/// How many lines a log holds; none where no log is kept.
pub open spec fn log_len(log: Option<Seq<Seq<char>>>) -> nat {
    match log {
        Some(lines) => lines.len(),
        None => 0,
    }
}

/// Each counter rises by the number of failures of its kind, as long as it
/// does not pass the largest number. A log is kept after the batch exactly
/// if one was kept before, and grows by one line for each failure.
pub proof fn lemma_tally_counts_failures(tally: TallyView, ids: Seq<Txid>, outcomes: Seq<Outcome>)
    requires
        ids.len() == outcomes.len(),
    ensures
        tally.failed_query + query_failures(outcomes) <= usize::MAX ==> tally_after(
            tally,
            ids,
            outcomes,
        ).failed_query == tally.failed_query + query_failures(outcomes),
        tally.failed_submit + submit_failures(outcomes) <= usize::MAX ==> tally_after(
            tally,
            ids,
            outcomes,
        ).failed_submit == tally.failed_submit + submit_failures(outcomes),
        tally_after(tally, ids, outcomes).log is Some <==> tally.log is Some,
        tally.log is Some ==> log_len(tally_after(tally, ids, outcomes).log) == log_len(tally.log)
            + query_failures(outcomes) + submit_failures(outcomes),
    decreases outcomes.len(),
{
    if outcomes.len() > 0 {
        let rest = outcomes.drop_last();
        lemma_tally_counts_failures(tally, ids.drop_last(), rest);
        assert(rest.push(outcomes.last()) =~= outcomes);
        rest.lemma_filter_len_push(|o: Outcome| o is FailedQuery, outcomes.last());
        rest.lemma_filter_len_push(|o: Outcome| o is FailedSubmit, outcomes.last());
    } else {
        assert(outcomes.filter(|o: Outcome| o is FailedQuery).len() == 0) by {
            outcomes.lemma_filter_len(|o: Outcome| o is FailedQuery);
        }
        assert(outcomes.filter(|o: Outcome| o is FailedSubmit).len() == 0) by {
            outcomes.lemma_filter_len(|o: Outcome| o is FailedSubmit);
        }
    }
}

/// A transaction that the source node gives and the destination node
/// refuses, as it does with one that it already holds, ends as a failed
/// submission. It raises the counter of failed submissions by one and leaves
/// the counter of failed queries as it was.
pub proof fn lemma_refused_submission(
    tally: TallyView,
    txid: Seq<char>,
    raw: String,
    reason: String,
)
    ensures
        next_attempt(next_attempt(Attempt::Fetching, Ok(raw)), Err(reason)) == Attempt::Finished(
            Outcome::FailedSubmit(reason),
        ),
        recorded(tally, txid, Outcome::FailedSubmit(reason)).failed_submit == bump(
            tally.failed_submit,
        ),
        recorded(tally, txid, Outcome::FailedSubmit(reason)).failed_query == tally.failed_query,
        recorded(tally, txid, Outcome::FailedSubmit(reason)).log == with_line(
            tally.log,
            failure_line(ClientType::Destination, txid, reason@),
        ),
{
}

/// A transaction that the source node cannot give is never handed to the
/// destination node: the attempt ends with the refusal of the fetch, and
/// whatever is answered afterwards changes nothing.
pub proof fn lemma_failed_query_ends_attempt(reason: String, later: Result<String, String>)
    ensures
        next_attempt(Attempt::Fetching, Err(reason)) == Attempt::Finished(
            Outcome::FailedQuery(reason),
        ),
        next_attempt(next_attempt(Attempt::Fetching, Err(reason)), later) == Attempt::Finished(
            Outcome::FailedQuery(reason),
        ),
{
}

} // verus!
