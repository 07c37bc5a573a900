//! What a run tells its user, as lines of text.

use crate::layers::layers_view;
use crate::retransmit::{texts, ClientType, RetransmitTally, TallyView};
use crate::text::{decimal, decimal_text};
use crate::txid::Txid;
use vstd::prelude::*;
use vstd::string::*;

verus! {

/// How far apart the two pools are.
pub open spec fn gap(source_size: usize, dest_size: usize) -> nat {
    if source_size >= dest_size {
        (source_size - dest_size) as nat
    } else {
        (dest_size - source_size) as nat
    }
}

/// The line on the sizes of the two pools.
pub open spec fn sizes_line(prefix: Seq<char>, source_size: usize, dest_size: usize) -> Seq<char> {
    "\n# "@ + prefix + " Transactions in source mempool/destination mempool: "@ + decimal(
        source_size as nat,
    ) + "/"@ + decimal(dest_size as nat) + " ("@ + decimal(gap(source_size, dest_size)) + " gap)"@
}

/// The line on one layer: how many parents its transactions rest on, and
/// how many transactions it holds.
pub open spec fn layer_line(parents: nat, count: nat) -> Seq<char> {
    "#Txs depending of "@ + decimal(parents) + " parents: "@ + decimal(count)
}

/// The listing of the layers: a heading, one line for each layer, and an
/// empty line.
pub open spec fn layer_listing(sizes: Seq<nat>) -> Seq<Seq<char>> {
    seq!["\nTransactions dependencies:\n"@] + Seq::new(
        sizes.len(),
        |i: int| layer_line(i as nat, sizes[i]),
    ) + seq![""@]
}

/// How many identifiers each bucket holds.
pub open spec fn bucket_sizes(layers: Seq<Seq<Txid>>) -> Seq<nat> {
    Seq::new(layers.len(), |i: int| layers[i].len())
}

/// The report on the failures: the log, the two counters, and what the
/// failures usually come from.
pub open spec fn failure_report(tally: TallyView) -> Seq<Seq<char>> {
    match tally.log {
        Some(lines) => lines + seq![
            "\n#Failed queried txs: "@ + decimal(tally.failed_query as nat),
            "#Failed sent txs: "@ + decimal(tally.failed_submit as nat),
            "\nFailed queried transactions (if any) are because of transactions removed from mempool while executing this program. i.e. RBF txs"@,
            "\nFailed sent transactions (if any) are because of parent transaction removed from mempool while executing this program."@,
        ],
        None => Seq::empty(),
    }
}

/// The line that ends the pass over the transactions that the feed
/// announced.
pub open spec fn catch_up_line(count: nat) -> Seq<char> {
    "Done. Sent "@ + decimal(count) + " additional transactions from ZMQ iterface"@
}

/// The name of a node's role, capitalised.
pub open spec fn role_name(client_type: ClientType) -> Seq<char> {
    match client_type {
        ClientType::Source => "Source"@,
        ClientType::Destination => "Destination"@,
    }
}

/// What is said of a node that cannot be reached.
pub open spec fn connect_error(client_type: ClientType, ip: Seq<char>) -> Seq<char> {
    "Can't connect to "@ + role_name(client_type) + " bitcoind node: "@ + ip
}

/// Computes how far apart the two pools are.
pub fn mempool_gap(source_size: usize, dest_size: usize) -> (n: usize)
    ensures
        n == gap(source_size, dest_size),
{
    if source_size >= dest_size {
        source_size - dest_size
    } else {
        dest_size - source_size
    }
}

/// Writes the line on the sizes of the two pools.
pub fn mempool_sizes_line(prefix: &str, source_size: usize, dest_size: usize) -> (line: String)
    ensures
        line@ == sizes_line(prefix@, source_size, dest_size),
{
    let mut line = String::from_str("\n# ");
    line.append(prefix);
    line.append(" Transactions in source mempool/destination mempool: ");
    line.append(decimal_text(source_size).as_str());
    line.append("/");
    line.append(decimal_text(dest_size).as_str());
    line.append(" (");
    line.append(decimal_text(mempool_gap(source_size, dest_size)).as_str());
    line.append(" gap)");
    line
}

/// Writes the line on one layer.
pub fn layer_text(parents: usize, count: usize) -> (line: String)
    ensures
        line@ == layer_line(parents as nat, count as nat),
{
    let mut line = String::from_str("#Txs depending of ");
    line.append(decimal_text(parents).as_str());
    line.append(" parents: ");
    line.append(decimal_text(count).as_str());
    line
}

/// Lists the layers, if the run is verbose; else says nothing.
pub fn list_mempool_layers(verbose: bool, layers: &Vec<Vec<Txid>>) -> (lines: Vec<String>)
    ensures
        texts(lines@) == if verbose {
            layer_listing(bucket_sizes(layers_view(layers@)))
        } else {
            Seq::<Seq<char>>::empty()
        },
{
    let mut lines: Vec<String> = Vec::new();
    if !verbose {
        return lines;
    }
    let ghost sizes = bucket_sizes(layers_view(layers@));
    lines.push(String::from_str("\nTransactions dependencies:\n"));
    let mut i: usize = 0;
    while i < layers.len()
        invariant
            i <= layers@.len(),
            sizes == bucket_sizes(layers_view(layers@)),
            texts(lines@) == seq!["\nTransactions dependencies:\n"@] + Seq::new(
                i as nat,
                |k: int| layer_line(k as nat, sizes[k]),
            ),
        decreases layers@.len() - i,
    {
        let line = layer_text(i, layers[i].len());
        let ghost before = texts(lines@);
        lines.push(line);
        proof {
            assert(texts(lines@) =~= before.push(line@));
        }
        i += 1;
    }
    lines.push(String::from_str(""));
    lines
}

/// Writes the report on the failures, if a log was kept; else says
/// nothing.
pub fn failed_txs_lines(tally: &RetransmitTally) -> (lines: Vec<String>)
    ensures
        texts(lines@) == failure_report(tally@),
{
    let mut lines: Vec<String> = Vec::new();
    match &tally.log {
        None => {},
        Some(log) => {
            let mut i: usize = 0;
            while i < log.len()
                invariant
                    i <= log@.len(),
                    texts(lines@) == texts(log@).take(i as int),
                decreases log@.len() - i,
            {
                let line = log[i].clone();
                let ghost before = texts(lines@);
                lines.push(line);
                proof {
                    assert(texts(lines@) =~= before.push(line@));
                }
                i += 1;
            }
            let mut queried = String::from_str("\n#Failed queried txs: ");
            queried.append(decimal_text(tally.failed_query).as_str());
            let mut sent = String::from_str("#Failed sent txs: ");
            sent.append(decimal_text(tally.failed_submit).as_str());
            lines.push(queried);
            lines.push(sent);
            lines.push(
                String::from_str(
                    "\nFailed queried transactions (if any) are because of transactions removed from mempool while executing this program. i.e. RBF txs",
                ),
            );
            lines.push(
                String::from_str(
                    "\nFailed sent transactions (if any) are because of parent transaction removed from mempool while executing this program.",
                ),
            );
            proof {
                assert(texts(log@).take(log@.len() as int) =~= texts(log@));
            }
        },
    }
    lines
}

/// Writes the line that ends the pass over the transactions that the feed
/// announced.
pub fn catch_up_text(count: usize) -> (line: String)
    ensures
        line@ == catch_up_line(count as nat),
{
    let mut line = String::from_str("Done. Sent ");
    line.append(decimal_text(count).as_str());
    line.append(" additional transactions from ZMQ iterface");
    line
}

/// The remark that closes a run.
pub fn closing_note() -> (line: String)
    ensures
        line@
            == "\nNote: Mempool sizes could not be the same at the end because of different peers connections, conflicting transactions or transaction arrival timing issues between nodes (among other causes)."@,
{
    String::from_str(
        "\nNote: Mempool sizes could not be the same at the end because of different peers connections, conflicting transactions or transaction arrival timing issues between nodes (among other causes).",
    )
}

/// Writes what is said of a node that cannot be reached.
pub fn connect_error_text(client_type: ClientType, ip: &str) -> (line: String)
    ensures
        line@ == connect_error(client_type, ip@),
{
    let mut line = String::from_str("Can't connect to ");
    match client_type {
        ClientType::Source => line.append("Source"),
        ClientType::Destination => line.append("Destination"),
    }
    line.append(" bitcoind node: ");
    line.append(ip);
    line
}

} // verus!
