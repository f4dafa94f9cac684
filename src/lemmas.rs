use vstd::prelude::*;

use crate::registry::{
    add_edge, apply_at, broadcast_result, deliverable, edges_of, has_id, ids_unique, index_of,
    lookup, out_edges, Edge,
};
use crate::voxel::{event_data, VoxelEvent, VoxelId, VoxelModel};

verus! {

/// How many times `x` occurs in `e`.
pub open spec fn count_of<A>(e: Seq<A>, x: A) -> nat
    decreases e.len(),
{
    if e.len() == 0 {
        0
    } else {
        count_of(e.drop_last(), x) + if e.last() == x {
            1nat
        } else {
            0nat
        }
    }
}

/// Occurrences add up over a concatenation.
pub proof fn lemma_count_concat<A>(a: Seq<A>, b: Seq<A>, x: A)
    ensures
        count_of(a + b, x) == count_of(a, x) + count_of(b, x),
    decreases b.len(),
{
    if b.len() > 0 {
        assert((a + b).drop_last() =~= a + b.drop_last());
        lemma_count_concat(a, b.drop_last(), x);
    } else {
        assert(a + b =~= a);
    }
}

/// An element that occurs in a sequence without duplicates occurs once.
pub proof fn lemma_count_unique<A>(e: Seq<A>, x: A)
    requires
        e.no_duplicates(),
        e.contains(x),
    ensures
        count_of(e, x) == 1,
    decreases e.len(),
{
    let p = e.drop_last();
    assert(p.no_duplicates());
    if e.last() == x {
        assert(!p.contains(x)) by {
            if p.contains(x) {
                let k = choose|k: int| 0 <= k < p.len() && p[k] == x;
                assert(e[k] == e[e.len() - 1]);
            }
        }
        lemma_count_absent(p, x);
    } else {
        let k = choose|k: int| 0 <= k < e.len() && e[k] == x;
        assert(p[k] == x);
        lemma_count_unique(p, x);
    }
}

/// An element that does not occur in a sequence is counted zero times.
pub proof fn lemma_count_absent<A>(e: Seq<A>, x: A)
    requires
        !e.contains(x),
    ensures
        count_of(e, x) == 0,
    decreases e.len(),
{
    if e.len() > 0 {
        let p = e.drop_last();
        assert(!p.contains(x)) by {
            if p.contains(x) {
                let k = choose|k: int| 0 <= k < p.len() && p[k] == x;
                assert(e[k] == x);
            }
        }
        assert(e[e.len() - 1] != x);
        lemma_count_absent(p, x);
    }
}

/// The edges leaving `v` toward `w` are as many as the entries `w` in its
/// neighbor list; none leave any other voxel's id.
pub proof fn lemma_count_out_edges(v: VoxelModel, u: VoxelId, w: VoxelId)
    ensures
        count_of(out_edges(v), (u, w)) == if u == v.id {
            count_of(v.neighbors, w)
        } else {
            0
        },
    decreases v.neighbors.len(),
{
    if v.neighbors.len() > 0 {
        let p = VoxelModel { neighbors: v.neighbors.drop_last(), ..v };
        assert(out_edges(v).drop_last() =~= out_edges(p));
        lemma_count_out_edges(p, u, w);
    }
}

/// In a registry with unique ids, the edges `u -> w` are the entries `w` of
/// the neighbor list of the voxel registered under `u`.
pub proof fn lemma_count_edges(s: Seq<VoxelModel>, u: VoxelId, w: VoxelId)
    requires
        ids_unique(s),
    ensures
        count_of(edges_of(s), (u, w)) == match lookup(s, u) {
            Some(v) => count_of(v.neighbors, w),
            None => 0,
        },
    decreases s.len(),
{
    if s.len() > 0 {
        let p = s.drop_last();
        let n = s.len() - 1;
        assert(ids_unique(p));
        lemma_count_edges(p, u, w);
        lemma_count_concat(edges_of(p), out_edges(s.last()), (u, w));
        lemma_count_out_edges(s.last(), u, w);
        if s[n].id == u {
            assert(has_id(s, u));
            assert(s[index_of(s, u)].id == u);
            assert(!has_id(p, u)) by {
                if has_id(p, u) {
                    let k = choose|k: int| 0 <= k < p.len() && #[trigger] p[k].id == u;
                    assert(s[k].id == s[n].id);
                }
            }
        } else if has_id(p, u) {
            let k = index_of(p, u);
            assert(s[k].id == u);
            assert(has_id(s, u));
            assert(s[index_of(s, u)].id == u);
        } else {
            assert(!has_id(s, u)) by {
                if has_id(s, u) {
                    let k = choose|k: int| 0 <= k < s.len() && #[trigger] s[k].id == u;
                    assert(p[k].id == u);
                }
            }
        }
    }
}

/// Keeping the edges with a registered target keeps every copy of such an
/// edge and drops every copy of any other.
pub proof fn lemma_count_deliverable(s: Seq<VoxelModel>, e: Seq<Edge>, x: Edge)
    ensures
        count_of(deliverable(s, e), x) == if has_id(s, x.1) {
            count_of(e, x)
        } else {
            0
        },
    decreases e.len(),
{
    if e.len() > 0 {
        let tail: Seq<Edge> = if has_id(s, e.last().1) {
            seq![e.last()]
        } else {
            Seq::empty()
        };
        lemma_count_deliverable(s, e.drop_last(), x);
        lemma_count_concat(deliverable(s, e.drop_last()), tail, x);
        assert(deliverable(s, e) == deliverable(s, e.drop_last()) + tail);
        if has_id(s, e.last().1) {
            assert(tail.drop_last() =~= Seq::<Edge>::empty());
            assert(count_of(tail, x) == count_of(Seq::<Edge>::empty(), x) + if e.last() == x {
                1nat
            } else {
                0nat
            });
        } else {
            assert(count_of(tail, x) == 0);
        }
    }
}

/// One tick reaches each neighbor once: for a registered voxel `s[i]` whose
/// neighbor list holds no duplicates, each registered neighbor receives
/// exactly one delivery from it, and an unregistered neighbor receives none.
pub proof fn lemma_tick_reaches_each_neighbor_once(s: Seq<VoxelModel>, i: int, w: VoxelId)
    requires
        ids_unique(s),
        0 <= i < s.len(),
        s[i].neighbors.no_duplicates(),
        s[i].neighbors.contains(w),
    ensures
        count_of(deliverable(s, edges_of(s)), (s[i].id, w)) == if has_id(s, w) {
            1nat
        } else {
            0nat
        },
{
    let u = s[i].id;
    assert(has_id(s, u));
    assert(s[index_of(s, u)].id == u);
    lemma_count_edges(s, u, w);
    lemma_count_unique(s[i].neighbors, w);
    lemma_count_deliverable(s, edges_of(s), (u, w));
}

/// A tick leaves the set of registered voxels, their order, ids and
/// neighbor lists as they were: an unregistered target has no effect.
pub proof fn lemma_tick_keeps_structure(s: Seq<VoxelModel>, payload: Seq<char>)
    ensures
        broadcast_result(s, payload).len() == s.len(),
        forall|i: int|
            0 <= i < s.len() ==> (#[trigger] broadcast_result(s, payload)[i]).id == s[i].id
                && broadcast_result(s, payload)[i].neighbors == s[i].neighbors,
        forall|id: VoxelId| has_id(broadcast_result(s, payload), id) == has_id(s, id),
{
    let t = broadcast_result(s, payload);
    assert forall|id: VoxelId| has_id(t, id) == has_id(s, id) by {
        if has_id(s, id) {
            let k = choose|k: int| 0 <= k < s.len() && #[trigger] s[k].id == id;
            assert(t[k].id == id);
        }
        if has_id(t, id) {
            let k = choose|k: int| 0 <= k < t.len() && #[trigger] t[k].id == id;
            assert(s[k].id == id);
        }
    }
}

/// Applying an event to the voxel registered under `id` changes that
/// voxel's data to the event's and nothing else.
pub proof fn lemma_apply_at(s: Seq<VoxelModel>, id: VoxelId, event: VoxelEvent)
    requires
        ids_unique(s),
    ensures
        ids_unique(apply_at(s, id, event)),
        apply_at(s, id, event).len() == s.len(),
        forall|k: int|
            0 <= k < s.len() ==> (#[trigger] apply_at(s, id, event)[k]).id == s[k].id
                && apply_at(s, id, event)[k].neighbors == s[k].neighbors,
        forall|x: VoxelId| has_id(apply_at(s, id, event), x) == has_id(s, x),
        lookup(apply_at(s, id, event), id) == match lookup(s, id) {
            Some(v) => Some(VoxelModel { data: event_data(event), ..v }),
            None => None,
        },
{
    let t = apply_at(s, id, event);
    assert forall|x: VoxelId| has_id(t, x) == has_id(s, x) by {
        if has_id(s, x) {
            let k = choose|k: int| 0 <= k < s.len() && #[trigger] s[k].id == x;
            assert(t[k].id == x);
        }
        if has_id(t, x) {
            let k = choose|k: int| 0 <= k < t.len() && #[trigger] t[k].id == x;
            assert(s[k].id == x);
        }
    }
    if has_id(s, id) {
        let k = index_of(s, id);
        assert(s[k].id == id);
        assert(t[k].id == id);
        assert(t[index_of(t, id)].id == id);
        assert(s[index_of(t, id)].id == id);
    }
}

/// Updating a voxel's data and then reading it gives back exactly the value
/// written.
pub proof fn lemma_update_then_read(s: Seq<VoxelModel>, id: VoxelId, x: String)
    requires
        ids_unique(s),
        has_id(s, id),
    ensures
        lookup(apply_at(s, id, VoxelEvent::UpdateData(x)), id) matches Some(v) && v.data == x@,
{
    lemma_apply_at(s, id, VoxelEvent::UpdateData(x));
}

/// `s` after each of `events` is applied in turn to the voxel under `id`.
pub open spec fn apply_all(s: Seq<VoxelModel>, id: VoxelId, events: Seq<VoxelEvent>) -> Seq<
    VoxelModel,
>
    decreases events.len(),
{
    if events.len() == 0 {
        s
    } else {
        apply_at(apply_all(s, id, events.drop_last()), id, events.last())
    }
}

/// Events applied one after another to the same voxel never mix: whatever
/// order they were serialized in, the voxel ends with the data of the last
/// one whole, and its identity, its neighbors and every other voxel's
/// structure are untouched.
pub proof fn lemma_serial_events_last_wins(
    s: Seq<VoxelModel>,
    id: VoxelId,
    events: Seq<VoxelEvent>,
)
    requires
        ids_unique(s),
        has_id(s, id),
        events.len() > 0,
    ensures
        ids_unique(apply_all(s, id, events)),
        lookup(apply_all(s, id, events), id) == Some(
            VoxelModel { data: event_data(events.last()), ..lookup(s, id)->Some_0 },
        ),
        forall|x: VoxelId| has_id(apply_all(s, id, events), x) == has_id(s, x),
    decreases events.len(),
{
    let p = events.drop_last();
    if p.len() == 0 {
        lemma_apply_at(s, id, events.last());
    } else {
        lemma_serial_events_last_wins(s, id, p);
        lemma_apply_at(apply_all(s, id, p), id, events.last());
    }
}

/// Appending an edge touches only the source voxel's neighbor list.
pub proof fn lemma_add_edge(s: Seq<VoxelModel>, from: VoxelId, to: VoxelId)
    requires
        ids_unique(s),
    ensures
        ids_unique(add_edge(s, from, to)),
        forall|x: VoxelId| has_id(add_edge(s, from, to), x) == has_id(s, x),
        forall|x: VoxelId|
            lookup(add_edge(s, from, to), x) == match lookup(s, x) {
                Some(v) => if x == from {
                    Some(VoxelModel { neighbors: v.neighbors.push(to), ..v })
                } else {
                    Some(v)
                },
                None => None,
            },
{
    let t = add_edge(s, from, to);
    assert forall|x: VoxelId| has_id(t, x) == has_id(s, x) by {
        if has_id(s, x) {
            let k = choose|k: int| 0 <= k < s.len() && #[trigger] s[k].id == x;
            assert(t[k].id == x);
        }
        if has_id(t, x) {
            let k = choose|k: int| 0 <= k < t.len() && #[trigger] t[k].id == x;
            assert(s[k].id == x);
        }
    }
    assert forall|x: VoxelId| has_id(s, x) implies index_of(t, x) == index_of(s, x) by {
        assert(s[index_of(s, x)].id == x);
        assert(t[index_of(t, x)].id == x);
        assert(s[index_of(t, x)].id == x);
    }
}

/// Linking `a -> b` and then `b -> a` gives two independent directed edges:
/// each voxel gains exactly the one edge toward the other.
pub proof fn lemma_link_both_ways(s: Seq<VoxelModel>, a: VoxelId, b: VoxelId)
    requires
        ids_unique(s),
        has_id(s, a),
        has_id(s, b),
        a != b,
    ensures
        lookup(add_edge(add_edge(s, a, b), b, a), a) == Some(
            VoxelModel {
                neighbors: lookup(s, a)->Some_0.neighbors.push(b),
                ..lookup(s, a)->Some_0
            },
        ),
        lookup(add_edge(add_edge(s, a, b), b, a), b) == Some(
            VoxelModel {
                neighbors: lookup(s, b)->Some_0.neighbors.push(a),
                ..lookup(s, b)->Some_0
            },
        ),
{
    lemma_add_edge(s, a, b);
    lemma_add_edge(add_edge(s, a, b), b, a);
}

/// Linking toward an id that is not registered succeeds on a registered
/// source, registers nothing, and the next tick delivers nothing along it.
pub proof fn lemma_link_to_unregistered(s: Seq<VoxelModel>, a: VoxelId, b: VoxelId)
    requires
        ids_unique(s),
        has_id(s, a),
        !has_id(s, b),
    ensures
        lookup(add_edge(s, a, b), a) == Some(
            VoxelModel {
                neighbors: lookup(s, a)->Some_0.neighbors.push(b),
                ..lookup(s, a)->Some_0
            },
        ),
        !has_id(add_edge(s, a, b), b),
        count_of(deliverable(add_edge(s, a, b), edges_of(add_edge(s, a, b))), (a, b)) == 0,
{
    lemma_add_edge(s, a, b);
    let t = add_edge(s, a, b);
    lemma_count_deliverable(t, edges_of(t), (a, b));
}

} // verus!
