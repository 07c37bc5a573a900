//! Layering of a snapshot by ancestor count.
//!
//! A transaction's ancestor count is the number of unconfirmed transactions
//! it rests on, itself included. A parent always has a smaller count than its
//! child, so sending the transactions count by count sends every parent
//! before its children.

use crate::txid::Txid;
use vstd::prelude::*;

verus! {

/// One transaction of a snapshot.
#[derive(Debug, PartialEq, Eq)]
pub struct TxDepth {
    /// Unconfirmed transactions in its ancestor set, itself included.
    pub ancestor_count: usize,
    pub tx_id: Txid,
}

/// Every transaction counts at least itself.
pub open spec fn counts_positive(refs: Seq<TxDepth>) -> bool {
    forall|k: int| 0 <= k < refs.len() ==> (#[trigger] refs[k]).ancestor_count >= 1
}

/// The transactions that answered the question about their ancestors, in
/// the order of the answers.
pub open spec fn snapshot_of(answers: Seq<(Txid, Option<usize>)>) -> Seq<TxDepth> {
    answers.filter_map(
        |a: (Txid, Option<usize>)|
            match a.1 {
                Some(ancestor_count) => Some(TxDepth { ancestor_count, tx_id: a.0 }),
                None => None,
            },
    )
}

/// The largest ancestor count of a snapshot, zero for the empty one.
pub open spec fn max_ancestor_count(refs: Seq<TxDepth>) -> nat
    decreases refs.len(),
{
    if refs.len() == 0 {
        0
    } else {
        let before = max_ancestor_count(refs.drop_last());
        if refs.last().ancestor_count > before {
            refs.last().ancestor_count as nat
        } else {
            before
        }
    }
}

/// The identifiers of the transactions whose ancestor count is `index + 1`,
/// in the order of the snapshot.
pub open spec fn bucket(refs: Seq<TxDepth>, index: int) -> Seq<Txid> {
    refs.filter(|r: TxDepth| r.ancestor_count == index + 1).map_values(|r: TxDepth| r.tx_id)
}

/// The layers of a snapshot: one bucket for each count up to the largest.
pub open spec fn layers_of(refs: Seq<TxDepth>) -> Seq<Seq<Txid>> {
    Seq::new(max_ancestor_count(refs), |index: int| bucket(refs, index))
}

/// The number of identifiers in all buckets together.
pub open spec fn total_len(layers: Seq<Seq<Txid>>) -> nat
    decreases layers.len(),
{
    if layers.len() == 0 {
        0
    } else {
        total_len(layers.drop_last()) + layers.last().len()
    }
}

/// What the buckets of an executable layering hold.
pub open spec fn layers_view(layers: Seq<Vec<Txid>>) -> Seq<Seq<Txid>> {
    layers.map_values(|b: Vec<Txid>| b@)
}

/// Keeps the transactions whose ancestor count the source node could tell.
///
/// A node may drop a transaction between listing it and being asked about
/// it; such a transaction has no answer and is left out.
pub fn get_tx_dept_vec(answers: Vec<(Txid, Option<usize>)>) -> (refs: Vec<TxDepth>)
    ensures
        refs@ == snapshot_of(answers@),
{
    let ghost all = answers@;
    let mut refs: Vec<TxDepth> = Vec::new();
    for answer in it: answers.into_iter()
        invariant
            it.seq() == all,
            refs@ == snapshot_of(all.take(it.index())),
    {
        proof {
            let k = it.index();
            assert(all.take(k + 1).drop_last() =~= all.take(k));
        }
        let (tx_id, count) = answer;
        match count {
            Some(ancestor_count) => {
                refs.push(TxDepth { ancestor_count, tx_id });
            },
            None => {},
        }
    }
    proof {
        assert(all.take(all.len() as int) =~= all);
    }
    refs
}

/// Appending a transaction extends the bucket of its count and no other.
pub proof fn lemma_bucket_push(refs: Seq<TxDepth>, last: TxDepth, index: int)
    ensures
        bucket(refs.push(last), index) == if last.ancestor_count == index + 1 {
            bucket(refs, index).push(last.tx_id)
        } else {
            bucket(refs, index)
        },
{
    reveal(Seq::filter);
    assert(refs.push(last).drop_last() =~= refs);
}

/// No count exceeds the largest, and a snapshot that is not empty holds a
/// transaction with the largest count.
pub proof fn lemma_max_ancestor_count(refs: Seq<TxDepth>)
    ensures
        forall|k: int|
            0 <= k < refs.len() ==> (#[trigger] refs[k]).ancestor_count <= max_ancestor_count(
                refs,
            ),
        refs.len() > 0 ==> exists|k: int|
            0 <= k < refs.len() && (#[trigger] refs[k]).ancestor_count == max_ancestor_count(
                refs,
            ),
    decreases refs.len(),
{
    if refs.len() > 0 {
        let rest = refs.drop_last();
        lemma_max_ancestor_count(rest);
        assert forall|k: int| 0 <= k < refs.len() implies (#[trigger] refs[k]).ancestor_count
            <= max_ancestor_count(refs) by {
            if k < rest.len() {
                assert(rest[k] == refs[k]);
            }
        }
        if refs.last().ancestor_count > max_ancestor_count(rest) || rest.len() == 0 {
            assert(refs[refs.len() - 1].ancestor_count == max_ancestor_count(refs));
        } else {
            let k = choose|k: int|
                0 <= k < rest.len() && (#[trigger] rest[k]).ancestor_count == max_ancestor_count(
                    rest,
                );
            assert(refs[k].ancestor_count == max_ancestor_count(refs));
        }
    }
}

/// Says whether every transaction counts at least itself.
pub fn counts_are_positive(refs: &Vec<TxDepth>) -> (b: bool)
    ensures
        b == counts_positive(refs@),
{
    let mut k: usize = 0;
    while k < refs.len()
        invariant
            k <= refs@.len(),
            forall|j: int| 0 <= j < k ==> (#[trigger] refs@[j]).ancestor_count >= 1,
        decreases refs@.len() - k,
    {
        if refs[k].ancestor_count == 0 {
            return false;
        }
        k += 1;
    }
    true
}

/// Buckets a snapshot by ancestor count.
///
/// Bucket `i` receives the identifiers of the transactions whose count is
/// `i + 1`, in the order in which the snapshot lists them. There are as many
/// buckets as the largest count, so an empty snapshot gives none.
pub fn get_mempool_layers(vec: Vec<TxDepth>) -> (layers: Vec<Vec<Txid>>)
    requires
        counts_positive(vec@),
    ensures
        layers_view(layers@) == layers_of(vec@),
        layers@.len() == max_ancestor_count(vec@),
        forall|index: int|
            0 <= index < layers@.len() ==> (#[trigger] layers@[index])@ == bucket(vec@, index),
{
    let ghost refs = vec@;
    let mut vec2: Vec<Vec<Txid>> = Vec::new();
    for tx_depth in it: vec.into_iter()
        invariant
            it.seq() == refs,
            counts_positive(refs),
            layers_view(vec2@) == layers_of(refs.take(it.index())),
    {
        let ghost seen = refs.take(it.index());
        let ghost grown = refs.take(it.index() + 1);
        let ghost seen_max = max_ancestor_count(seen);
        proof {
            assert(grown =~= seen.push(tx_depth));
            assert(grown.drop_last() =~= seen);
            assert(layers_view(vec2@).len() == seen_max);
            assert forall|b: int| 0 <= b < vec2@.len() implies (#[trigger] vec2@[b])@ == bucket(
                seen,
                b,
            ) by {
                assert(layers_view(vec2@)[b] == layers_of(seen)[b]);
            }
        }
        let ancestor_index: usize = tx_depth.ancestor_count - 1;
        while vec2.len() <= ancestor_index
            invariant
                seen_max == max_ancestor_count(seen),
                seen_max <= vec2@.len(),
                vec2@.len() == seen_max || vec2@.len() <= ancestor_index + 1,
                forall|b: int| 0 <= b < vec2@.len() ==> (#[trigger] vec2@[b])@ == bucket(seen, b),
            decreases ancestor_index + 1 - vec2@.len(),
        {
            proof {
                lemma_no_late_bucket(seen, vec2@.len() as int);
            }
            vec2.push(Vec::new());
        }
        vec2[ancestor_index].push(tx_depth.tx_id);
        proof {
            assert forall|b: int| 0 <= b < vec2@.len() implies (#[trigger] vec2@[b])@ == bucket(
                grown,
                b,
            ) by {
                lemma_bucket_push(seen, tx_depth, b);
            }
        }
    }
    proof {
        assert(refs.take(refs.len() as int) =~= refs);
        assert forall|index: int| 0 <= index < vec2@.len() implies (#[trigger] vec2@[index])@
            == bucket(refs, index) by {
            assert(layers_view(vec2@)[index] == layers_of(refs)[index]);
        }
    }
    vec2
}

/// A bucket beyond the largest count is empty.
pub proof fn lemma_no_late_bucket(refs: Seq<TxDepth>, index: int)
    requires
        index >= max_ancestor_count(refs),
    ensures
        bucket(refs, index) == Seq::<Txid>::empty(),
    decreases refs.len(),
{
    reveal(Seq::filter);
    if refs.len() > 0 {
        lemma_no_late_bucket(refs.drop_last(), index);
        lemma_bucket_push(refs.drop_last(), refs.last(), index);
    }
}

/// A bucket holds an identifier exactly when the snapshot holds a
/// transaction of that identifier and of the bucket's count.
pub proof fn lemma_bucket_contains(refs: Seq<TxDepth>, index: int, id: Txid)
    ensures
        bucket(refs, index).contains(id) <==> exists|k: int|
            0 <= k < refs.len() && (#[trigger] refs[k]).tx_id == id && refs[k].ancestor_count
                == index + 1,
{
    let pred = |r: TxDepth| r.ancestor_count == index + 1;
    let kept = refs.filter(pred);
    if bucket(refs, index).contains(id) {
        let j = choose|j: int| 0 <= j < bucket(refs, index).len() && bucket(refs, index)[j] == id;
        refs.lemma_filter_pred(pred, j);
        refs.lemma_filter_contains_rev(pred, kept[j]);
        let k = choose|k: int| 0 <= k < refs.len() && refs[k] == kept[j];
        assert(refs[k].tx_id == id && refs[k].ancestor_count == index + 1);
    }
    if exists|k: int|
        0 <= k < refs.len() && (#[trigger] refs[k]).tx_id == id && refs[k].ancestor_count == index
            + 1 {
        let k = choose|k: int|
            0 <= k < refs.len() && (#[trigger] refs[k]).tx_id == id && refs[k].ancestor_count
                == index + 1;
        refs.lemma_filter_contains(pred, k);
        let j = choose|j: int| 0 <= j < kept.len() && kept[j] == refs[k];
        assert(bucket(refs, index)[j] == id);
    }
}

/// One more identifier in one bucket is one more identifier in all.
proof fn lemma_total_len_grows(layers: Seq<Seq<Txid>>, index: int, id: Txid)
    requires
        0 <= index < layers.len(),
    ensures
        total_len(layers.update(index, layers[index].push(id))) == total_len(layers) + 1,
    decreases layers.len(),
{
    let grown = layers.update(index, layers[index].push(id));
    if index == layers.len() - 1 {
        assert(grown.drop_last() =~= layers.drop_last());
    } else {
        lemma_total_len_grows(layers.drop_last(), index, id);
        assert(grown.drop_last() =~= layers.drop_last().update(
            index,
            layers.drop_last()[index].push(id),
        ));
    }
}

/// Empty buckets hold nothing.
proof fn lemma_total_len_of_empty_buckets(layers: Seq<Seq<Txid>>)
    requires
        forall|b: int| 0 <= b < layers.len() ==> (#[trigger] layers[b]).len() == 0,
    ensures
        total_len(layers) == 0,
    decreases layers.len(),
{
    if layers.len() > 0 {
        lemma_total_len_of_empty_buckets(layers.drop_last());
    }
}

/// Buckets for all counts up to a bound that no count exceeds hold as many
/// identifiers as the snapshot holds transactions.
proof fn lemma_buckets_hold_all(refs: Seq<TxDepth>, bound: nat)
    requires
        counts_positive(refs),
        forall|k: int| 0 <= k < refs.len() ==> (#[trigger] refs[k]).ancestor_count <= bound,
    ensures
        total_len(Seq::new(bound, |index: int| bucket(refs, index))) == refs.len(),
    decreases refs.len(),
{
    let buckets = Seq::new(bound, |index: int| bucket(refs, index));
    if refs.len() == 0 {
        assert forall|b: int| 0 <= b < buckets.len() implies (#[trigger] buckets[b]).len() == 0 by {
            lemma_no_late_bucket(refs, b);
        }
        lemma_total_len_of_empty_buckets(buckets);
    } else {
        let rest = refs.drop_last();
        let last = refs.last();
        let before = Seq::new(bound, |index: int| bucket(rest, index));
        assert(rest.push(last) =~= refs);
        assert forall|k: int| 0 <= k < rest.len() implies (#[trigger] rest[k]).ancestor_count >= 1
            && rest[k].ancestor_count <= bound by {
        }
        lemma_buckets_hold_all(rest, bound);
        let at = last.ancestor_count - 1;
        assert forall|b: int| 0 <= b < bound implies #[trigger] buckets[b] == before.update(
            at,
            before[at].push(last.tx_id),
        )[b] by {
            lemma_bucket_push(rest, last, b);
        }
        assert(buckets =~= before.update(at, before[at].push(last.tx_id)));
        lemma_total_len_grows(before, at, last.tx_id);
    }
}

/// Layering loses nothing and invents nothing: a bucket holds an identifier
/// exactly when the snapshot lists it with the bucket's count, and the
/// buckets together hold as many identifiers as the snapshot lists
/// transactions.
pub proof fn lemma_layers_partition(refs: Seq<TxDepth>)
    requires
        counts_positive(refs),
    ensures
        forall|index: int, id: Txid|
            0 <= index < layers_of(refs).len() ==> (#[trigger] layers_of(refs)[index].contains(id)
                <==> exists|k: int|
                0 <= k < refs.len() && (#[trigger] refs[k]).tx_id == id && refs[k].ancestor_count
                    == index + 1),
        total_len(layers_of(refs)) == refs.len(),
{
    lemma_max_ancestor_count(refs);
    lemma_buckets_hold_all(refs, max_ancestor_count(refs));
    assert forall|index: int, id: Txid| 0 <= index < layers_of(refs).len() implies (
    #[trigger] layers_of(refs)[index].contains(id) <==> exists|k: int|
        0 <= k < refs.len() && (#[trigger] refs[k]).tx_id == id && refs[k].ancestor_count == index
            + 1) by {
        lemma_bucket_contains(refs, index, id);
    }
}

/// No two transactions of the snapshot have the same identifier.
pub open spec fn ids_distinct(refs: Seq<TxDepth>) -> bool {
    forall|i: int, j: int|
        #![trigger refs[i], refs[j]]
        0 <= i < j < refs.len() ==> refs[i].tx_id != refs[j].tx_id
}

/// The buckets of a snapshot without repeated identifiers are sets: no
/// bucket holds an identifier twice, and no identifier lies in two buckets.
pub proof fn lemma_buckets_are_sets(refs: Seq<TxDepth>, index: int)
    requires
        ids_distinct(refs),
    ensures
        bucket(refs, index).no_duplicates(),
        forall|other: int, id: Txid|
            other != index && bucket(refs, index).contains(id) ==> !(#[trigger] bucket(
                refs,
                other,
            ).contains(id)),
    decreases refs.len(),
{
    assert forall|other: int, id: Txid|
        other != index && bucket(refs, index).contains(id) implies !(#[trigger] bucket(
        refs,
        other,
    ).contains(id)) by {
        lemma_bucket_contains(refs, index, id);
        lemma_bucket_contains(refs, other, id);
        if bucket(refs, other).contains(id) {
            let k = choose|k: int|
                0 <= k < refs.len() && (#[trigger] refs[k]).tx_id == id && refs[k].ancestor_count
                    == index + 1;
            let m = choose|m: int|
                0 <= m < refs.len() && (#[trigger] refs[m]).tx_id == id && refs[m].ancestor_count
                    == other + 1;
            assert(k != m);
            if k < m {
                assert(refs[k].tx_id != refs[m].tx_id);
            } else {
                assert(refs[m].tx_id != refs[k].tx_id);
            }
        }
    }
    if refs.len() > 0 {
        let rest = refs.drop_last();
        let last = refs.last();
        assert(rest.push(last) =~= refs);
        assert forall|i: int, j: int| 0 <= i < j < rest.len() implies (#[trigger] rest[i]).tx_id != (
        #[trigger] rest[j]).tx_id by {
            assert(refs[i].tx_id != refs[j].tx_id);
        }
        lemma_buckets_are_sets(rest, index);
        lemma_bucket_push(rest, last, index);
        if last.ancestor_count == index + 1 {
            lemma_bucket_contains(rest, index, last.tx_id);
            if bucket(rest, index).contains(last.tx_id) {
                let k = choose|k: int|
                    0 <= k < rest.len() && (#[trigger] rest[k]).tx_id == last.tx_id
                        && rest[k].ancestor_count == index + 1;
                assert(refs[k].tx_id != refs[refs.len() - 1].tx_id);
            }
            let grown = bucket(rest, index).push(last.tx_id);
            assert forall|i: int, j: int|
                0 <= i < grown.len() && 0 <= j < grown.len() && i != j implies grown[i]
                != grown[j] by {
                if i < grown.len() - 1 {
                    assert(bucket(rest, index).contains(grown[i]));
                }
                if j < grown.len() - 1 {
                    assert(bucket(rest, index).contains(grown[j]));
                }
            }
        }
    } else {
        reveal(Seq::filter);
        assert(bucket(refs, index).len() == 0);
    }
}

/// The counts of a snapshot agree with a relation of ancestry: whenever one
/// listed transaction is an ancestor of another, its count is the smaller.
pub open spec fn respects_ancestry(
    refs: Seq<TxDepth>,
    is_ancestor: spec_fn(Txid, Txid) -> bool,
) -> bool {
    forall|i: int, j: int|
        #![trigger refs[i], refs[j]]
        0 <= i < refs.len() && 0 <= j < refs.len() && is_ancestor(refs[i].tx_id, refs[j].tx_id)
            ==> refs[i].ancestor_count < refs[j].ancestor_count
}

/// An ancestor lies in a strictly earlier bucket than its descendant.
///
/// Transaction `i` of the snapshot lies in the bucket of its count, and so
/// does its descendant `j`, further on. And wherever else the two identifiers
/// occur in the layers, the ancestor's bucket is the earlier one.
pub proof fn lemma_ancestor_layered_first(
    refs: Seq<TxDepth>,
    is_ancestor: spec_fn(Txid, Txid) -> bool,
    i: int,
    j: int,
)
    requires
        counts_positive(refs),
        respects_ancestry(refs, is_ancestor),
        0 <= i < refs.len(),
        0 <= j < refs.len(),
        is_ancestor(refs[i].tx_id, refs[j].tx_id),
    ensures
        0 <= refs[i].ancestor_count - 1 < refs[j].ancestor_count - 1 < layers_of(refs).len(),
        layers_of(refs)[refs[i].ancestor_count - 1].contains(refs[i].tx_id),
        layers_of(refs)[refs[j].ancestor_count - 1].contains(refs[j].tx_id),
        forall|a: int, b: int|
            0 <= a < layers_of(refs).len() && 0 <= b < layers_of(refs).len() && (
            #[trigger] layers_of(refs)[a]).contains(refs[i].tx_id) && (#[trigger] layers_of(
                refs,
            )[b]).contains(refs[j].tx_id) ==> a < b,
{
    let layers = layers_of(refs);
    let x = refs[i].tx_id;
    let y = refs[j].tx_id;
    lemma_max_ancestor_count(refs);
    lemma_layers_partition(refs);
    assert forall|a: int, b: int|
        0 <= a < layers.len() && 0 <= b < layers.len() && (#[trigger] layers[a]).contains(x) && (
        #[trigger] layers[b]).contains(y) implies a < b by {
        let k = choose|k: int|
            0 <= k < refs.len() && (#[trigger] refs[k]).tx_id == x && refs[k].ancestor_count == a
                + 1;
        let m = choose|m: int|
            0 <= m < refs.len() && (#[trigger] refs[m]).tx_id == y && refs[m].ancestor_count == b
                + 1;
        assert(refs[k].ancestor_count < refs[m].ancestor_count);
    }
}

/// When each layer of a run began to be sent, and when it was through.
pub struct Timeline {
    pub began: Seq<int>,
    pub ended: Seq<int>,
}

/// The layers are sent one at a time: no layer is through before it began,
/// and none begins before the one before it is through.
pub open spec fn one_layer_at_a_time(timeline: Timeline, layers: nat) -> bool {
    &&& timeline.began.len() == layers
    &&& timeline.ended.len() == layers
    &&& forall|i: int| 0 <= i < layers ==> #[trigger] timeline.began[i] <= timeline.ended[i]
    &&& forall|i: int|
        0 <= i && i + 1 < layers ==> #[trigger] timeline.ended[i] <= timeline.began[i + 1]
}

/// An earlier layer is through before a later one begins.
pub proof fn lemma_earlier_layer_ends_first(timeline: Timeline, layers: nat, a: int, b: int)
    requires
        one_layer_at_a_time(timeline, layers),
        0 <= a < b < layers,
    ensures
        timeline.ended[a] <= timeline.began[b],
    decreases b - a,
{
    if a + 1 < b {
        lemma_earlier_layer_ends_first(timeline, layers, a, b - 1);
        assert(timeline.began[b - 1] <= timeline.ended[b - 1]);
    }
}

/// Where the layers are sent one at a time, every attempt at an ancestor
/// is over before any attempt at its descendant begins.
///
/// An attempt is the time from `begin` to `end` that it takes; it falls
/// within the time of a layer that holds its transaction.
pub proof fn lemma_ancestor_attempts_come_first(
    refs: Seq<TxDepth>,
    is_ancestor: spec_fn(Txid, Txid) -> bool,
    i: int,
    j: int,
    timeline: Timeline,
    ancestor_layer: int,
    ancestor_end: int,
    descendant_layer: int,
    descendant_begin: int,
)
    requires
        counts_positive(refs),
        respects_ancestry(refs, is_ancestor),
        0 <= i < refs.len(),
        0 <= j < refs.len(),
        is_ancestor(refs[i].tx_id, refs[j].tx_id),
        one_layer_at_a_time(timeline, layers_of(refs).len()),
        0 <= ancestor_layer < layers_of(refs).len(),
        layers_of(refs)[ancestor_layer].contains(refs[i].tx_id),
        ancestor_end <= timeline.ended[ancestor_layer],
        0 <= descendant_layer < layers_of(refs).len(),
        layers_of(refs)[descendant_layer].contains(refs[j].tx_id),
        timeline.began[descendant_layer] <= descendant_begin,
    ensures
        ancestor_end <= descendant_begin,
{
    lemma_ancestor_layered_first(refs, is_ancestor, i, j);
    lemma_earlier_layer_ends_first(
        timeline,
        layers_of(refs).len(),
        ancestor_layer,
        descendant_layer,
    );
}

} // verus!
