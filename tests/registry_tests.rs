use voxel_sim::error::VoxelError;
use voxel_sim::registry::VoxelServer;
use voxel_sim::voxel::{Voxel, VoxelEvent, VoxelState};

fn data_of(server: &VoxelServer, id: (i32, i32, i32)) -> Option<String> {
    server.read_voxel(&id).map(|st| st.data)
}

#[test]
fn tick_delivers_placeholder_to_linked_neighbor() {
    let mut server = VoxelServer::new();
    assert_eq!(server.register_voxel((0, 0, 0), None), Ok(()));
    assert_eq!(server.register_voxel((1, 0, 0), None), Ok(()));
    assert_eq!(server.link_neighbors((0, 0, 0), (1, 0, 0)), Ok(()));
    let delivered = server.tick();
    assert_eq!(delivered, vec![((0, 0, 0), (1, 0, 0))]);
    assert_eq!(data_of(&server, (1, 0, 0)), Some("New data".to_string()));
    assert_eq!(data_of(&server, (0, 0, 0)), Some(String::new()));
}

#[test]
fn send_event_to_unregistered_id_is_unknown_target() {
    let mut server = VoxelServer::new();
    server.register_voxel((0, 0, 0), Some(VoxelState::new("kept".to_string()))).unwrap();
    let r = server.send_event(&(9, 9, 9), VoxelEvent::UpdateData("x".to_string()));
    assert_eq!(r, Err(VoxelError::UnknownTarget));
    assert_eq!(server.len(), 1);
    assert_eq!(data_of(&server, (0, 0, 0)), Some("kept".to_string()));
    assert_eq!(data_of(&server, (9, 9, 9)), None);
}

#[test]
fn send_event_then_read_round_trips() {
    let mut server = VoxelServer::new();
    server.register_voxel((2, -3, 4), None).unwrap();
    for x in ["", "hello", "New data", "ünïcödé"] {
        assert_eq!(server.send_event(&(2, -3, 4), VoxelEvent::UpdateData(x.to_string())), Ok(()));
        assert_eq!(data_of(&server, (2, -3, 4)), Some(x.to_string()));
    }
}

#[test]
fn handle_event_then_read_state_round_trips() {
    let mut v = Voxel::new((1, 2, 3));
    assert_eq!(v.read_state().data, "");
    v.handle_event(VoxelEvent::UpdateData("abc".to_string()));
    assert_eq!(v.read_state().data, "abc");
    assert_eq!(v.id(), (1, 2, 3));
}

#[test]
fn serial_events_apply_each_whole_and_last_wins() {
    let mut server = VoxelServer::new();
    server.register_voxel((0, 0, 0), None).unwrap();
    let n = 50;
    for k in 0..n {
        let payload = format!("event-{}", k);
        server.send_event(&(0, 0, 0), VoxelEvent::UpdateData(payload.clone())).unwrap();
        assert_eq!(data_of(&server, (0, 0, 0)), Some(payload));
    }
    assert_eq!(data_of(&server, (0, 0, 0)), Some(format!("event-{}", n - 1)));
}

#[test]
fn links_are_directed_and_independent() {
    let mut server = VoxelServer::new();
    server.register_voxel((0, 0, 0), None).unwrap();
    server.register_voxel((0, 1, 0), None).unwrap();
    assert_eq!(server.link_neighbors((0, 0, 0), (0, 1, 0)), Ok(()));
    assert_eq!(server.link_neighbors((0, 1, 0), (0, 0, 0)), Ok(()));
    let a = server.get_voxel(&(0, 0, 0)).unwrap();
    let b = server.get_voxel(&(0, 1, 0)).unwrap();
    assert_eq!(a.neighbors().clone(), vec![(0, 1, 0)]);
    assert_eq!(b.neighbors().clone(), vec![(0, 0, 0)]);
    assert_eq!(server.edges(), vec![((0, 0, 0), (0, 1, 0)), ((0, 1, 0), (0, 0, 0))]);
}

#[test]
fn link_to_unregistered_target_succeeds_and_tick_skips_it() {
    let mut server = VoxelServer::new();
    server.register_voxel((0, 0, 0), None).unwrap();
    assert_eq!(server.link_neighbors((0, 0, 0), (7, 7, 7)), Ok(()));
    assert_eq!(server.len(), 1);
    let delivered = server.tick();
    assert!(delivered.is_empty());
    assert_eq!(data_of(&server, (0, 0, 0)), Some(String::new()));
    assert_eq!(data_of(&server, (7, 7, 7)), None);
}

#[test]
fn link_from_unregistered_source_is_unknown_source() {
    let mut server = VoxelServer::new();
    server.register_voxel((1, 1, 1), None).unwrap();
    assert_eq!(server.link_neighbors((0, 0, 0), (1, 1, 1)), Err(VoxelError::UnknownSource));
    assert!(server.edges().is_empty());
}

#[test]
fn duplicate_registration_is_rejected() {
    let mut server = VoxelServer::new();
    server.register_voxel((0, 0, 0), Some(VoxelState::new("first".to_string()))).unwrap();
    let r = server.register_voxel((0, 0, 0), Some(VoxelState::new("second".to_string())));
    assert_eq!(r, Err(VoxelError::DuplicateOrInvalid));
    assert_eq!(server.len(), 1);
    assert_eq!(data_of(&server, (0, 0, 0)), Some("first".to_string()));
}

#[test]
fn add_voxel_replaces_last_write_wins() {
    let mut server = VoxelServer::new();
    let mut first = Voxel::new((0, 0, 0));
    first.add_neighbor((1, 0, 0));
    server.add_voxel(first);
    server.add_voxel(Voxel::with_state((0, 0, 0), VoxelState::new("second".to_string())));
    assert_eq!(server.len(), 1);
    assert_eq!(data_of(&server, (0, 0, 0)), Some("second".to_string()));
    assert!(server.get_voxel(&(0, 0, 0)).unwrap().neighbors().is_empty());
}

#[test]
fn tick_reaches_each_registered_neighbor_once() {
    let mut server = VoxelServer::new();
    for id in [(0, 0, 0), (1, 0, 0), (2, 0, 0), (3, 0, 0)] {
        server.register_voxel(id, None).unwrap();
    }
    server.link_neighbors((0, 0, 0), (1, 0, 0)).unwrap();
    server.link_neighbors((0, 0, 0), (2, 0, 0)).unwrap();
    server.link_neighbors((0, 0, 0), (5, 0, 0)).unwrap();
    let delivered = server.tick();
    assert_eq!(delivered, vec![((0, 0, 0), (1, 0, 0)), ((0, 0, 0), (2, 0, 0))]);
    assert_eq!(data_of(&server, (1, 0, 0)), Some("New data".to_string()));
    assert_eq!(data_of(&server, (2, 0, 0)), Some("New data".to_string()));
    assert_eq!(data_of(&server, (3, 0, 0)), Some(String::new()));
    assert_eq!(data_of(&server, (0, 0, 0)), Some(String::new()));
}

#[test]
fn duplicate_edges_deliver_twice() {
    let mut server = VoxelServer::new();
    server.register_voxel((0, 0, 0), None).unwrap();
    server.register_voxel((1, 0, 0), None).unwrap();
    server.link_neighbors((0, 0, 0), (1, 0, 0)).unwrap();
    server.link_neighbors((0, 0, 0), (1, 0, 0)).unwrap();
    let delivered = server.tick();
    assert_eq!(delivered, vec![((0, 0, 0), (1, 0, 0)), ((0, 0, 0), (1, 0, 0))]);
}

#[test]
fn broadcast_carries_given_payload() {
    let mut server = VoxelServer::new();
    server.register_voxel((0, 0, 0), None).unwrap();
    server.register_voxel((0, 0, 1), None).unwrap();
    server.link_neighbors((0, 0, 1), (0, 0, 0)).unwrap();
    server.broadcast(&"custom".to_string());
    assert_eq!(data_of(&server, (0, 0, 0)), Some("custom".to_string()));
    assert_eq!(data_of(&server, (0, 0, 1)), Some(String::new()));
}

#[test]
fn deliver_to_missing_id_is_silent() {
    let mut server = VoxelServer::new();
    server.register_voxel((0, 0, 0), None).unwrap();
    server.deliver(&(4, 4, 4), VoxelEvent::UpdateData("x".to_string()));
    server.deliver(&(0, 0, 0), VoxelEvent::UpdateData("y".to_string()));
    assert_eq!(data_of(&server, (0, 0, 0)), Some("y".to_string()));
    assert_eq!(server.len(), 1);
}

#[test]
fn remove_drops_voxel() {
    let mut server = VoxelServer::new();
    server.register_voxel((0, 0, 0), None).unwrap();
    server.register_voxel((1, 0, 0), None).unwrap();
    let removed = server.remove(&(0, 0, 0)).unwrap();
    assert_eq!(removed.id(), (0, 0, 0));
    assert!(server.remove(&(0, 0, 0)).is_none());
    assert_eq!(server.len(), 1);
    assert!(server.get_voxel(&(0, 0, 0)).is_none());
    assert!(server.get_voxel(&(1, 0, 0)).is_some());
}

#[test]
fn empty_registry_ticks_to_nothing() {
    let mut server = VoxelServer::new();
    assert_eq!(server.len(), 0);
    assert!(server.tick().is_empty());
    assert!(server.edges().is_empty());
}

#[test]
fn extreme_coordinates_are_distinct_ids() {
    let mut server = VoxelServer::new();
    server.register_voxel((i32::MIN, 0, i32::MAX), None).unwrap();
    server.register_voxel((i32::MAX, 0, i32::MIN), None).unwrap();
    assert_eq!(server.len(), 2);
}
