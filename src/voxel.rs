use vstd::prelude::*;

verus! {

/// Identifies a grid cell by its integer coordinates `(x, y, z)`.
pub type VoxelId = (i32, i32, i32);

/// True when `a` and `b` name the same cell.
pub fn same_id(a: &VoxelId, b: &VoxelId) -> (r: bool)
    ensures
        r == (*a == *b),
{
    a.0 == b.0 && a.1 == b.1 && a.2 == b.2
}

/// The payload owned by a single voxel.
pub struct VoxelState {
    pub data: String,
}

/// A state transition applied to exactly one voxel.
pub enum VoxelEvent {
    /// Replaces the voxel's data with the carried value.
    UpdateData(String),
}

/// Mathematical model of a voxel: its identity, its directed neighbor
/// edges in order of addition, and the data of its state.
pub ghost struct VoxelModel {
    pub id: VoxelId,
    pub neighbors: Seq<VoxelId>,
    pub data: Seq<char>,
}

impl VoxelState {
    /// Builds a state holding `data`.
    pub fn new(data: String) -> (r: VoxelState)
        ensures
            r.data@ == data@,
    {
        VoxelState { data }
    }

    /// Builds the default state, whose data is empty.
    pub fn empty() -> (r: VoxelState)
        ensures
            r.data@ == Seq::<char>::empty(),
    {
        VoxelState { data: String::new() }
    }
}

/// The data that `event` leaves in a voxel whatever the voxel held before.
pub open spec fn event_data(event: VoxelEvent) -> Seq<char> {
    match event {
        VoxelEvent::UpdateData(s) => s@,
    }
}

/// A voxel: an identity, an ordered list of neighbor ids, and the state it
/// alone owns and mutates.
pub struct Voxel {
    id: VoxelId,
    neighbors: Vec<VoxelId>,
    state: VoxelState,
}

impl View for Voxel {
    type V = VoxelModel;

    closed spec fn view(&self) -> VoxelModel {
        VoxelModel { id: self.id, neighbors: self.neighbors@, data: self.state.data@ }
    }
}

impl Voxel {
    /// Creates a voxel with no neighbors and an empty state.
    pub fn new(id: VoxelId) -> (r: Voxel)
        ensures
            r@ == (VoxelModel { id, neighbors: Seq::empty(), data: Seq::empty() }),
    {
        Voxel { id, neighbors: Vec::new(), state: VoxelState::empty() }
    }

    /// Creates a voxel with no neighbors holding `state`.
    pub fn with_state(id: VoxelId, state: VoxelState) -> (r: Voxel)
        ensures
            r@ == (VoxelModel { id, neighbors: Seq::empty(), data: state.data@ }),
    {
        Voxel { id, neighbors: Vec::new(), state }
    }

    /// The voxel's identifier.
    pub fn id(&self) -> (r: VoxelId)
        ensures
            r == self@.id,
    {
        self.id
    }

    /// The voxel's neighbor ids, in order of addition.
    pub fn neighbors(&self) -> (r: &Vec<VoxelId>)
        ensures
            r@ == self@.neighbors,
    {
        &self.neighbors
    }

    /// Appends a directed edge to `neighbor_id`; duplicates are kept and each
    /// one is a separate delivery on every tick.
    pub fn add_neighbor(&mut self, neighbor_id: VoxelId)
        ensures
            final(self)@ == (VoxelModel {
                neighbors: old(self)@.neighbors.push(neighbor_id),
                ..old(self)@
            }),
    {
        self.neighbors.push(neighbor_id);
    }

    /// Applies `event` to the voxel's state. The whole event takes effect at
    /// once: the exclusive borrow keeps any reader from seeing it half done.
    pub fn handle_event(&mut self, event: VoxelEvent)
        ensures
            final(self)@ == (VoxelModel { data: event_data(event), ..old(self)@ }),
    {
        match event {
            VoxelEvent::UpdateData(new_data) => {
                self.state.data = new_data;
            },
        }
    }

    /// A copy of the current state.
    pub fn read_state(&self) -> (r: VoxelState)
        ensures
            r.data@ == self@.data,
    {
        VoxelState { data: self.state.data.clone() }
    }
}

} // verus!
