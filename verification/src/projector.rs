//! The view projector: from the registry to the rows of the node table,
//! filtered by the bridge preference and ordered newest first.

use crate::node::{ComprehensiveNode, NodeView};
use crate::registry::NodeRegistry;
use vstd::prelude::*;
use vstd::set_lib::{lemma_len_subset, lemma_set_disjoint_lens};

verus! {

/// The views of records, in order.
pub open spec fn views(rows: Seq<ComprehensiveNode>) -> Seq<NodeView> {
    rows.map_values(|n: ComprehensiveNode| n@)
}

/// The identifiers whose records came over the gateway bridge.
pub open spec fn bridged_keys(registry: Map<u32, NodeView>) -> Set<u32> {
    Set::new(|k: u32| registry.contains_key(k) && registry[k].info.via_mqtt)
}

/// The identifiers whose records the table shows: all of them, or, where
/// bridge-relayed nodes are not to be shown, those that did not come over
/// the bridge.
pub open spec fn shown_keys(registry: Map<u32, NodeView>, show_bridged: bool) -> Set<u32> {
    Set::new(
        |k: u32| registry.contains_key(k) && (show_bridged || !registry[k].info.via_mqtt),
    )
}

/// Whether `rows` are the registry's records under `keys`, in that order,
/// each key at most once.
pub open spec fn lists(rows: Seq<NodeView>, keys: Seq<u32>, registry: Map<u32, NodeView>) -> bool {
    &&& keys.len() == rows.len()
    &&& keys.no_duplicates()
    &&& forall|i: int|
        0 <= i < keys.len() ==> registry.contains_key(#[trigger] keys[i]) && rows[i]
            == registry[keys[i]]
}

/// Whether `rows` hold each shown record of the registry exactly once, and
/// nothing else.
pub open spec fn is_projection(
    rows: Seq<NodeView>,
    registry: Map<u32, NodeView>,
    show_bridged: bool,
) -> bool {
    exists|keys: Seq<u32>| #[trigger]
        lists(rows, keys, registry) && keys.to_set() == shown_keys(registry, show_bridged)
}

/// Whether the rows are ordered by their time of last update, newest first.
pub open spec fn newest_first(rows: Seq<NodeView>) -> bool {
    forall|i: int, j: int|
        0 <= i <= j < rows.len() ==> (#[trigger] rows[i]).last_seen >= (
        #[trigger] rows[j]).last_seen
}

/// Whether no two records of the registry share a time of last update.
pub open spec fn distinct_last_seen(registry: Map<u32, NodeView>) -> bool {
    forall|a: u32, b: u32|
        registry.contains_key(a) && registry.contains_key(b) && a != b ==> (
        #[trigger] registry[a]).last_seen != (#[trigger] registry[b]).last_seen
}

/// Where a record last updated at `last_seen` goes into rows ordered
/// newest first: behind every row that is at least as new.
fn insertion_point(rows: &Vec<ComprehensiveNode>, last_seen: u64) -> (at: usize)
    requires
        newest_first(views(rows@)),
    ensures
        at <= rows@.len(),
        forall|i: int| 0 <= i < at ==> (#[trigger] rows@[i]).last_seen >= last_seen,
        forall|i: int| at <= i < rows@.len() ==> (#[trigger] rows@[i]).last_seen < last_seen,
{
    let mut at: usize = 0;
    while at < rows.len() && rows[at].last_seen >= last_seen
        invariant
            at <= rows@.len(),
            forall|i: int| 0 <= i < at ==> (#[trigger] rows@[i]).last_seen >= last_seen,
        decreases rows@.len() - at,
    {
        at += 1;
    }
    assert forall|i: int| at <= i < rows@.len() implies (#[trigger] rows@[i]).last_seen
        < last_seen by {
        assert(views(rows@)[at as int].last_seen >= views(rows@)[i].last_seen);
    }
    at
}

/// Putting one more record into the table at its place keeps the table a
/// listing of the registry, newest first, and adds that record's key to the
/// keys listed and no other.
proof fn lemma_insert_row(
    rows: Seq<NodeView>,
    keys: Seq<u32>,
    registry: Map<u32, NodeView>,
    at: int,
    k: u32,
)
    requires
        lists(rows, keys, registry),
        newest_first(rows),
        0 <= at <= rows.len(),
        registry.contains_key(k),
        !keys.contains(k),
        forall|i: int| 0 <= i < at ==> (#[trigger] rows[i]).last_seen >= registry[k].last_seen,
        forall|i: int|
            at <= i < rows.len() ==> (#[trigger] rows[i]).last_seen < registry[k].last_seen,
    ensures
        lists(rows.insert(at, registry[k]), keys.insert(at, k), registry),
        newest_first(rows.insert(at, registry[k])),
        forall|q: u32| keys.insert(at, k).contains(q) <==> keys.contains(q) || q == k,
{
    let after = rows.insert(at, registry[k]);
    let order = keys.insert(at, k);
    assert forall|i: int| 0 <= i < order.len() implies registry.contains_key(#[trigger] order[i])
        && after[i] == registry[order[i]] by {
        if i < at {
            assert(order[i] == keys[i]);
        } else if i > at {
            assert(order[i] == keys[i - 1]);
        }
    }
    assert forall|i: int, j: int| 0 <= i < j < order.len() implies order[i] != order[j] by {
        let a = if i < at { i } else { i - 1 };
        let b = if j < at { j } else { j - 1 };
        if i != at && j != at {
            assert(keys[a] != keys[b]);
        } else if i == at {
            assert(keys.contains(keys[b]));
        } else {
            assert(keys.contains(keys[a]));
        }
    }
    assert forall|i: int, j: int| 0 <= i <= j < after.len() implies (#[trigger] after[i]).last_seen
        >= (#[trigger] after[j]).last_seen by {
        let a = if i < at { i } else { i - 1 };
        let b = if j < at { j } else { j - 1 };
        if i != at && j != at {
            assert(rows[a].last_seen >= rows[b].last_seen);
        } else if i == at && j != at {
            assert(rows[b].last_seen < registry[k].last_seen);
        } else if j == at && i != at {
            assert(rows[a].last_seen >= registry[k].last_seen);
        }
    }
    assert forall|q: u32| order.contains(q) <==> keys.contains(q) || q == k by {
        if order.contains(q) {
            let w = choose|w: int| 0 <= w < order.len() && order[w] == q;
            if w < at {
                assert(keys[w] == q);
            } else if w > at {
                assert(keys[w - 1] == q);
            }
        }
        if keys.contains(q) {
            let w = choose|w: int| 0 <= w < keys.len() && keys[w] == q;
            if w < at {
                assert(order[w] == q);
            } else {
                assert(order[w + 1] == q);
            }
        }
        if q == k {
            assert(order[at] == k);
        }
    }
}

/// The rows of the node table: a copy of every record that is to be shown,
/// newest first.
pub fn project(registry: &NodeRegistry, show_bridged: bool) -> (rows: Vec<ComprehensiveNode>)
    ensures
        is_projection(views(rows@), registry@, show_bridged),
        newest_first(views(rows@)),
        rows@.len() == shown_keys(registry@, show_bridged).len(),
{
    let keys = registry.keys();
    let mut rows: Vec<ComprehensiveNode> = Vec::new();
    let ghost mut order: Seq<u32> = Seq::empty();
    let mut n: usize = 0;
    while n < keys.len()
        invariant
            n <= keys@.len(),
            keys@.no_duplicates(),
            keys@.to_set() == registry@.dom(),
            lists(views(rows@), order, registry@),
            newest_first(views(rows@)),
            forall|q: u32|
                order.contains(q) <==> shown_keys(registry@, show_bridged).contains(q)
                    && keys@.subrange(0, n as int).contains(q),
        decreases keys@.len() - n,
    {
        let k: u32 = keys[n];
        let ghost seen = keys@.subrange(0, n as int);
        let ghost listed = order;
        proof {
            assert(keys@.to_set().contains(k));
            assert(registry@.contains_key(k));
            if seen.contains(k) {
                let w = choose|w: int| 0 <= w < seen.len() && seen[w] == k;
                assert(keys@[w] == keys@[n as int]);
            }
            assert(keys@.subrange(0, n + 1) =~= seen.push(k));
            assert forall|q: u32| seen.push(k).contains(q) <==> seen.contains(q) || q == k by {
                if seen.contains(q) {
                    let w = choose|w: int| 0 <= w < seen.len() && seen[w] == q;
                    assert(seen.push(k)[w] == q);
                }
                if q == k {
                    assert(seen.push(k)[n as int] == k);
                }
            }
        }
        match registry.get(k) {
            Some(node) => {
                if show_bridged || !node.node_info.via_mqtt {
                    let at = insertion_point(&rows, node.last_seen);
                    let copy = node.clone();
                    proof {
                        assert forall|i: int| 0 <= i < rows@.len() implies (#[trigger] views(
                            rows@,
                        )[i]).last_seen == rows@[i].last_seen by {}
                        lemma_insert_row(views(rows@), order, registry@, at as int, k);
                        assert(views(rows@.insert(at as int, copy)) =~= views(rows@).insert(
                            at as int,
                            copy@,
                        ));
                        order = order.insert(at as int, k);
                    }
                    rows.insert(at, copy);
                }
            },
            None => {},
        }
        proof {
            let shown = shown_keys(registry@, show_bridged);
            assert forall|q: u32| order.contains(q) <==> shown.contains(q) && seen.push(
                k,
            ).contains(q) by {
                assert(listed.contains(q) <==> shown.contains(q) && seen.contains(q));
                assert(seen.push(k).contains(q) <==> seen.contains(q) || q == k);
                assert(order.contains(q) <==> listed.contains(q) || (q == k && shown.contains(k)));
            }
        }
        n += 1;
    }
    proof {
        assert(keys@.subrange(0, n as int) =~= keys@);
        assert forall|q: u32| order.to_set().contains(q) <==> shown_keys(
            registry@,
            show_bridged,
        ).contains(q) by {
            if shown_keys(registry@, show_bridged).contains(q) {
                assert(keys@.to_set().contains(q));
            }
        }
        assert(order.to_set() =~= shown_keys(registry@, show_bridged));
        order.unique_seq_to_set();
    }
    rows
}

/// Every record that is to be shown has a row, and every row is such a
/// record: a node that was just heard of for the first time appears in the
/// table, a bridge-relayed one only where those are shown.
pub proof fn lemma_projection_lists_the_shown(
    rows: Seq<NodeView>,
    registry: Map<u32, NodeView>,
    show_bridged: bool,
)
    requires
        is_projection(rows, registry, show_bridged),
    ensures
        forall|k: u32|
            registry.contains_key(k) && (show_bridged || !registry[k].info.via_mqtt)
                ==> rows.contains(#[trigger] registry[k]),
        forall|i: int|
            0 <= i < rows.len() ==> registry.values().contains(#[trigger] rows[i]) && (show_bridged
                || !rows[i].info.via_mqtt),
{
    let keys = choose|keys: Seq<u32>| #[trigger]
        lists(rows, keys, registry) && keys.to_set() == shown_keys(registry, show_bridged);
    assert forall|k: u32|
        registry.contains_key(k) && (show_bridged || !registry[k].info.via_mqtt) implies rows.contains(
        #[trigger] registry[k],
    ) by {
        assert(keys.to_set().contains(k));
        let i = choose|i: int| 0 <= i < keys.len() && keys[i] == k;
        assert(rows[i] == registry[k]);
    }
    assert forall|i: int| 0 <= i < rows.len() implies registry.values().contains(
        #[trigger] rows[i],
    ) && (show_bridged || !rows[i].info.via_mqtt) by {
        assert(keys.to_set().contains(keys[i]));
        assert(registry.contains_key(keys[i]));
    }
}

/// Hiding the bridge-relayed nodes leaves one row for every other node: the
/// table has as many rows as the registry has records, less those that came
/// over the bridge.
pub proof fn lemma_hidden_rows_count(rows: Seq<NodeView>, registry: Map<u32, NodeView>)
    requires
        registry.dom().finite(),
        is_projection(rows, registry, false),
    ensures
        rows.len() == registry.dom().len() - bridged_keys(registry).len(),
{
    let keys = choose|keys: Seq<u32>| #[trigger]
        lists(rows, keys, registry) && keys.to_set() == shown_keys(registry, false);
    keys.unique_seq_to_set();
    let shown = shown_keys(registry, false);
    let bridged = bridged_keys(registry);
    lemma_len_subset(shown, registry.dom());
    lemma_len_subset(bridged, registry.dom());
    lemma_set_disjoint_lens(shown, bridged);
    assert(shown + bridged =~= registry.dom());
}

/// Showing the bridge-relayed nodes leaves one row for every node.
pub proof fn lemma_all_rows_count(rows: Seq<NodeView>, registry: Map<u32, NodeView>)
    requires
        is_projection(rows, registry, true),
    ensures
        rows.len() == registry.dom().len(),
{
    let keys = choose|keys: Seq<u32>| #[trigger]
        lists(rows, keys, registry) && keys.to_set() == shown_keys(registry, true);
    keys.unique_seq_to_set();
    assert(shown_keys(registry, true) =~= registry.dom());
}

/// Where no two records share a time of last update, the table is strictly
/// descending by it.
pub proof fn lemma_distinct_strictly_descending(
    rows: Seq<NodeView>,
    registry: Map<u32, NodeView>,
    show_bridged: bool,
)
    requires
        is_projection(rows, registry, show_bridged),
        newest_first(rows),
        distinct_last_seen(registry),
    ensures
        forall|i: int, j: int|
            0 <= i < j < rows.len() ==> (#[trigger] rows[i]).last_seen > (
            #[trigger] rows[j]).last_seen,
{
    let keys = choose|keys: Seq<u32>| #[trigger]
        lists(rows, keys, registry) && keys.to_set() == shown_keys(registry, show_bridged);
    assert forall|i: int, j: int| 0 <= i < j < rows.len() implies (#[trigger] rows[i]).last_seen
        > (#[trigger] rows[j]).last_seen by {
        assert(keys[i] != keys[j]);
        assert(registry[keys[i]].last_seen != registry[keys[j]].last_seen);
    }
}

} // verus!
