use vstd::prelude::*;

use crate::error::VoxelError;
use crate::voxel::{event_data, same_id, Voxel, VoxelEvent, VoxelId, VoxelModel, VoxelState};

verus! {

/// True when no two voxels of `s` share an id.
pub open spec fn ids_unique(s: Seq<VoxelModel>) -> bool {
    forall|i: int, j: int|
        0 <= i < s.len() && 0 <= j < s.len() && #[trigger] s[i].id == #[trigger] s[j].id ==> i == j
}

/// True when some voxel of `s` has id `id`.
pub open spec fn has_id(s: Seq<VoxelModel>, id: VoxelId) -> bool {
    exists|i: int| 0 <= i < s.len() && #[trigger] s[i].id == id
}

/// A position of a voxel with id `id` in `s` (the only one when ids are unique).
pub open spec fn index_of(s: Seq<VoxelModel>, id: VoxelId) -> int {
    choose|i: int| 0 <= i < s.len() && #[trigger] s[i].id == id
}

/// The voxel registered under `id`, if any.
pub open spec fn lookup(s: Seq<VoxelModel>, id: VoxelId) -> Option<VoxelModel> {
    if has_id(s, id) {
        Some(s[index_of(s, id)])
    } else {
        None
    }
}

/// `s` after `event` is applied to the voxel registered under `id`; `s`
/// itself when no voxel has that id.
pub open spec fn apply_at(s: Seq<VoxelModel>, id: VoxelId, event: VoxelEvent) -> Seq<VoxelModel> {
    if has_id(s, id) {
        s.update(index_of(s, id), VoxelModel { data: event_data(event), ..s[index_of(s, id)] })
    } else {
        s
    }
}

/// `s` with the edge `from -> to` appended to the neighbor list of the voxel
/// registered under `from`; `s` itself when no voxel has that id.
pub open spec fn add_edge(s: Seq<VoxelModel>, from: VoxelId, to: VoxelId) -> Seq<VoxelModel> {
    if has_id(s, from) {
        s.update(
            index_of(s, from),
            VoxelModel { neighbors: s[index_of(s, from)].neighbors.push(to), ..s[index_of(s, from)] },
        )
    } else {
        s
    }
}

/// A directed neighbor edge `(source, target)`.
pub type Edge = (VoxelId, VoxelId);

/// The edges leaving `v`, one per entry of its neighbor list, in order.
pub open spec fn out_edges(v: VoxelModel) -> Seq<Edge> {
    v.neighbors.map_values(|n: VoxelId| (v.id, n))
}

/// Every edge of `s`: voxel by voxel, each voxel's neighbors in order.
pub open spec fn edges_of(s: Seq<VoxelModel>) -> Seq<Edge>
    decreases s.len(),
{
    if s.len() == 0 {
        Seq::empty()
    } else {
        edges_of(s.drop_last()) + out_edges(s.last())
    }
}

/// The edges of `e` whose target is registered in `s`, in order.
pub open spec fn deliverable(s: Seq<VoxelModel>, e: Seq<Edge>) -> Seq<Edge>
    decreases e.len(),
{
    if e.len() == 0 {
        Seq::empty()
    } else {
        deliverable(s, e.drop_last()) + if has_id(s, e.last().1) {
            seq![e.last()]
        } else {
            Seq::empty()
        }
    }
}

/// True when some edge of `e` points at `id`.
pub open spec fn targeted(e: Seq<Edge>, id: VoxelId) -> bool {
    exists|k: int| 0 <= k < e.len() && #[trigger] e[k].1 == id
}

/// `s` after one broadcast of `payload`: every voxel that some edge points at
/// holds `payload`; every other voxel is unchanged.
pub open spec fn broadcast_result(s: Seq<VoxelModel>, payload: Seq<char>) -> Seq<VoxelModel> {
    Seq::new(
        s.len(),
        |i: int|
            if targeted(edges_of(s), s[i].id) {
                VoxelModel { data: payload, ..s[i] }
            } else {
                s[i]
            },
    )
}

/// The payload that a plain tick delivers.
pub open spec fn tick_payload() -> Seq<char> {
    "New data"@
}

/// The registry: owns every voxel, indexed by id, and routes events to them.
/// Voxels are kept in order of first registration.
pub struct VoxelServer {
    voxels: Vec<Voxel>,
}

impl View for VoxelServer {
    type V = Seq<VoxelModel>;

    closed spec fn view(&self) -> Seq<VoxelModel> {
        self.voxels@.map_values(|v: Voxel| v@)
    }
}

impl VoxelServer {
    /// The registry's invariant: ids are unique.
    pub open spec fn wf(&self) -> bool {
        ids_unique(self@)
    }

    /// Creates an empty registry.
    pub fn new() -> (r: VoxelServer)
        ensures
            r@ == Seq::<VoxelModel>::empty(),
            r.wf(),
    {
        VoxelServer { voxels: Vec::new() }
    }

    /// The number of registered voxels.
    pub fn len(&self) -> (r: usize)
        ensures
            r == self@.len(),
    {
        self.voxels.len()
    }

    /// The position of the voxel registered under `id`.
    fn find(&self, id: &VoxelId) -> (r: Option<usize>)
        requires
            self.wf(),
        ensures
            r is None <==> !has_id(self@, *id),
            r matches Some(i) ==> i == index_of(self@, *id) && i < self@.len(),
    {
        let mut i: usize = 0;
        while i < self.voxels.len()
            invariant
                self.wf(),
                i <= self.voxels@.len(),
                self@.len() == self.voxels@.len(),
                forall|k: int| 0 <= k < i ==> (#[trigger] self@[k]).id != *id,
            decreases self.voxels@.len() - i,
        {
            if same_id(&self.voxels[i].id(), id) {
                assert(self@[i as int].id == *id);
                assert(has_id(self@, *id));
                assert(self@[index_of(self@, *id)].id == *id);
                return Some(i);
            }
            i = i + 1;
        }
        None
    }

    /// Stores `voxel` under its id. A voxel already registered under that id
    /// is dropped and the new one takes its place (last write wins).
    pub fn add_voxel(&mut self, voxel: Voxel)
        requires
            old(self).wf(),
        ensures
            final(self).wf(),
            final(self)@ == if has_id(old(self)@, voxel@.id) {
                old(self)@.update(index_of(old(self)@, voxel@.id), voxel@)
            } else {
                old(self)@.push(voxel@)
            },
    {
        let id = voxel.id();
        match self.find(&id) {
            Some(i) => {
                self.voxels.set(i, voxel);
            },
            None => {
                self.voxels.push(voxel);
            },
        }
        assert(self@ =~= if has_id(old(self)@, id) {
            old(self)@.update(index_of(old(self)@, id), voxel@)
        } else {
            old(self)@.push(voxel@)
        });
    }

    /// The voxel registered under `id`, or `None` when there is none.
    pub fn get_voxel(&self, id: &VoxelId) -> (r: Option<&Voxel>)
        requires
            self.wf(),
        ensures
            match r {
                Some(v) => lookup(self@, *id) == Some(v@),
                None => lookup(self@, *id) is None,
            },
    {
        match self.find(id) {
            Some(i) => Some(&self.voxels[i]),
            None => None,
        }
    }
    /// Applies `event` to the voxel at position `i`.
    fn apply_at_index(&mut self, i: usize, event: VoxelEvent)
        requires
            old(self).wf(),
            i < old(self)@.len(),
        ensures
            final(self).wf(),
            final(self)@ == old(self)@.update(
                i as int,
                VoxelModel { data: event_data(event), ..old(self)@[i as int] },
            ),
    {
        self.voxels[i].handle_event(event);
        assert(self@ =~= old(self)@.update(
            i as int,
            VoxelModel { data: event_data(event), ..old(self)@[i as int] },
        ));
    }

    /// Delivers `event` to the voxel registered under `id`, or reports
    /// `UnknownTarget` and changes nothing when there is none.
    pub fn send_event(&mut self, id: &VoxelId, event: VoxelEvent) -> (r: Result<(), VoxelError>)
        requires
            old(self).wf(),
        ensures
            final(self).wf(),
            final(self)@ == apply_at(old(self)@, *id, event),
            r is Ok <==> has_id(old(self)@, *id),
            r is Err ==> r == Err::<(), VoxelError>(VoxelError::UnknownTarget),
    {
        match self.find(id) {
            Some(i) => {
                self.apply_at_index(i, event);
                Ok(())
            },
            None => Err(VoxelError::UnknownTarget),
        }
    }

    /// Delivers `event` to the voxel registered under `id`; an unknown id is
    /// silently skipped.
    pub fn deliver(&mut self, id: &VoxelId, event: VoxelEvent)
        requires
            old(self).wf(),
        ensures
            final(self).wf(),
            final(self)@ == apply_at(old(self)@, *id, event),
    {
        let _ = self.send_event(id, event);
    }

    /// Creates a voxel under `id` holding `initial_state`, or an empty state
    /// when none is given. An id already taken is rejected with
    /// `DuplicateOrInvalid` and the registry is left as it was.
    pub fn register_voxel(&mut self, id: VoxelId, initial_state: Option<VoxelState>) -> (r: Result<
        (),
        VoxelError,
    >)
        requires
            old(self).wf(),
        ensures
            final(self).wf(),
            r is Ok <==> !has_id(old(self)@, id),
            r is Err ==> r == Err::<(), VoxelError>(VoxelError::DuplicateOrInvalid)
                && final(self)@ == old(self)@,
            r is Ok ==> final(self)@ == old(self)@.push(
                VoxelModel {
                    id,
                    neighbors: Seq::empty(),
                    data: match initial_state {
                        Some(st) => st.data@,
                        None => Seq::empty(),
                    },
                },
            ),
    {
        match self.find(&id) {
            Some(_) => Err(VoxelError::DuplicateOrInvalid),
            None => {
                let voxel = match initial_state {
                    Some(st) => Voxel::with_state(id, st),
                    None => Voxel::new(id),
                };
                self.voxels.push(voxel);
                assert(self@ =~= old(self)@.push(voxel@));
                Ok(())
            },
        }
    }

    /// Adds the directed edge `from -> to`. `to` need not be registered;
    /// an unregistered `from` is rejected with `UnknownSource` and the
    /// registry is left as it was.
    pub fn link_neighbors(&mut self, from: VoxelId, to: VoxelId) -> (r: Result<(), VoxelError>)
        requires
            old(self).wf(),
        ensures
            final(self).wf(),
            r is Ok <==> has_id(old(self)@, from),
            r is Err ==> r == Err::<(), VoxelError>(VoxelError::UnknownSource),
            final(self)@ == add_edge(old(self)@, from, to),
    {
        match self.find(&from) {
            Some(i) => {
                self.voxels[i].add_neighbor(to);
                assert(self@ =~= old(self)@.update(
                    i as int,
                    VoxelModel {
                        neighbors: old(self)@[i as int].neighbors.push(to),
                        ..old(self)@[i as int]
                    },
                ));
                Ok(())
            },
            None => Err(VoxelError::UnknownSource),
        }
    }

    /// A copy of the state of the voxel registered under `id`, or `None`
    /// when there is none.
    pub fn read_voxel(&self, id: &VoxelId) -> (r: Option<VoxelState>)
        requires
            self.wf(),
        ensures
            r is None <==> !has_id(self@, *id),
            r matches Some(st) ==> st.data@ == lookup(self@, *id)->Some_0.data,
    {
        match self.find(id) {
            Some(i) => Some(self.voxels[i].read_state()),
            None => None,
        }
    }

    /// Removes and returns the voxel registered under `id`, if any.
    pub fn remove(&mut self, id: &VoxelId) -> (r: Option<Voxel>)
        requires
            old(self).wf(),
        ensures
            final(self).wf(),
            r is None <==> !has_id(old(self)@, *id),
            r is None ==> final(self)@ == old(self)@,
            r matches Some(v) ==> lookup(old(self)@, *id) == Some(v@) && final(self)@ == old(
                self,
            )@.remove(index_of(old(self)@, *id)),
    {
        match self.find(id) {
            Some(i) => {
                let v = self.voxels.remove(i);
                assert(self@ =~= old(self)@.remove(i as int));
                Some(v)
            },
            None => None,
        }
    }
    /// A snapshot of every edge, voxel by voxel in registration order.
    pub fn edges(&self) -> (r: Vec<Edge>)
        ensures
            r@ == edges_of(self@),
    {
        let mut out: Vec<Edge> = Vec::new();
        let mut i: usize = 0;
        while i < self.voxels.len()
            invariant
                i <= self@.len(),
                self@.len() == self.voxels@.len(),
                out@ == edges_of(self@.take(i as int)),
            decreases self.voxels@.len() - i,
        {
            let v = &self.voxels[i];
            let id = v.id();
            let ns = v.neighbors();
            let mut j: usize = 0;
            while j < ns.len()
                invariant
                    i < self@.len(),
                    self@.len() == self.voxels@.len(),
                    id == self@[i as int].id,
                    ns@ == self@[i as int].neighbors,
                    j <= ns@.len(),
                    out@ == edges_of(self@.take(i as int)) + out_edges(self@[i as int]).take(
                        j as int,
                    ),
                decreases ns@.len() - j,
            {
                out.push((id, ns[j]));
                assert(out_edges(self@[i as int]).take(j + 1) =~= out_edges(self@[i as int]).take(
                    j as int,
                ).push((id, ns@[j as int])));
                j = j + 1;
            }
            assert(self@.take(i + 1).drop_last() =~= self@.take(i as int));
            assert(out_edges(self@[i as int]).take(j as int) =~= out_edges(self@[i as int]));
            i = i + 1;
        }
        assert(self@.take(i as int) =~= self@);
        out
    }

    /// One broadcast pass: takes a snapshot of the edges, then delivers
    /// `UpdateData(payload)` along each edge whose target is registered,
    /// silently skipping the others. Returns the edges delivered, in order.
    pub fn broadcast(&mut self, payload: &String) -> (r: Vec<Edge>)
        requires
            old(self).wf(),
        ensures
            final(self).wf(),
            final(self)@ == broadcast_result(old(self)@, payload@),
            r@ == deliverable(old(self)@, edges_of(old(self)@)),
    {
        let ghost s0 = self@;
        let edges = self.edges();
        let mut delivered: Vec<Edge> = Vec::new();
        let mut k: usize = 0;
        while k < edges.len()
            invariant
                self.wf(),
                edges@ == edges_of(s0),
                k <= edges@.len(),
                self@.len() == s0.len(),
                forall|i: int|
                    0 <= i < s0.len() ==> (#[trigger] self@[i]).id == s0[i].id && self@[i].neighbors
                        == s0[i].neighbors && self@[i].data == if targeted(
                        edges@.take(k as int),
                        s0[i].id,
                    ) {
                        payload@
                    } else {
                        s0[i].data
                    },
                delivered@ == deliverable(s0, edges@.take(k as int)),
            decreases edges@.len() - k,
        {
            let (src, dst) = edges[k];
            assert(edges@.take(k + 1).drop_last() =~= edges@.take(k as int));
            assert(has_id(self@, dst) == has_id(s0, dst)) by {
                if has_id(s0, dst) {
                    let w = choose|w: int| 0 <= w < s0.len() && #[trigger] s0[w].id == dst;
                    assert(self@[w].id == dst);
                }
                if has_id(self@, dst) {
                    let w = choose|w: int| 0 <= w < self@.len() && #[trigger] self@[w].id == dst;
                    assert(s0[w].id == dst);
                }
            }
            match self.find(&dst) {
                Some(i) => {
                    self.apply_at_index(i, VoxelEvent::UpdateData(payload.clone()));
                    delivered.push((src, dst));
                },
                None => {},
            }
            assert forall|i: int| 0 <= i < s0.len() implies targeted(
                edges@.take(k + 1),
                s0[i].id,
            ) == (targeted(edges@.take(k as int), s0[i].id) || dst == s0[i].id) by {
                if targeted(edges@.take(k + 1), s0[i].id) {
                    let m = choose|m: int|
                        0 <= m < k + 1 && #[trigger] edges@.take(k + 1)[m].1 == s0[i].id;
                    if m < k {
                        assert(edges@.take(k as int)[m].1 == s0[i].id);
                    }
                }
                if targeted(edges@.take(k as int), s0[i].id) {
                    let m = choose|m: int|
                        0 <= m < k && #[trigger] edges@.take(k as int)[m].1 == s0[i].id;
                    assert(edges@.take(k + 1)[m].1 == s0[i].id);
                }
                if dst == s0[i].id {
                    assert(edges@.take(k + 1)[k as int].1 == s0[i].id);
                }
            }
            k = k + 1;
        }
        assert(edges@.take(k as int) =~= edges@);
        assert(self@ =~= broadcast_result(s0, payload@));
        delivered
    }

    /// One tick with the default payload, `"New data"`.
    pub fn tick(&mut self) -> (r: Vec<Edge>)
        requires
            old(self).wf(),
        ensures
            final(self).wf(),
            final(self)@ == broadcast_result(old(self)@, tick_payload()),
            r@ == deliverable(old(self)@, edges_of(old(self)@)),
    {
        let payload = "New data".to_string();
        proof {
            reveal_strlit("New data");
        }
        self.broadcast(&payload)
    }
}

} // verus!
