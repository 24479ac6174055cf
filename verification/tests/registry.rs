use bacchus::events::{
    delete_event, delete_server_manager_role, get_all_events, get_channels_by_event_id,
    get_event_by_channel, get_event_by_manifest, get_server_manager_role_id, insert_channels,
    insert_event, insert_server_manager_role, EventData, Registry, RegistryError,
};

fn sample_event(name: &str, manifest_id: u64) -> EventData {
    EventData {
        name: name.to_string(),
        short_description: None,
        description: None,
        thumbnail: None,
        picture: None,
        max_participants: None,
        server_id: 10,
        manager_role_id: 101,
        participant_role_id: 102,
        manifest_id,
        manifest_channel_id: 30,
        category_id: 200,
    }
}

#[test]
fn insert_event_assigns_fresh_ids() {
    let mut reg = Registry::new();
    let a = insert_event(&mut reg, &sample_event("a", 300)).unwrap();
    let b = insert_event(&mut reg, &sample_event("b", 301)).unwrap();
    assert_eq!(a, 1);
    assert_eq!(b, 2);
    assert_eq!(get_all_events(&reg).len(), 2);
}

#[test]
fn get_event_by_channel_resolves_linked_channel() {
    let mut reg = Registry::new();
    let id = insert_event(&mut reg, &sample_event("a", 300)).unwrap();
    insert_channels(&mut reg, id, vec![201, 202]).unwrap();
    let (found_id, data) = get_event_by_channel(&reg, 202).unwrap();
    assert_eq!(found_id, id);
    assert_eq!(data.name, "a");
    assert_eq!(data.manifest_id, 300);
}

#[test]
fn get_event_by_channel_unlinked_is_not_found() {
    let mut reg = Registry::new();
    let id = insert_event(&mut reg, &sample_event("a", 300)).unwrap();
    insert_channels(&mut reg, id, vec![201]).unwrap();
    assert_eq!(get_event_by_channel(&reg, 999).unwrap_err(), RegistryError::NotFound);
}

#[test]
fn insert_channels_unknown_event_fails() {
    let mut reg = Registry::new();
    let r = insert_channels(&mut reg, 7, vec![201]);
    assert_eq!(r.unwrap_err(), RegistryError::StorageError);
    assert!(get_channels_by_event_id(&reg, 7).is_empty());
}

#[test]
fn insert_channels_already_linked_channel_fails() {
    let mut reg = Registry::new();
    let a = insert_event(&mut reg, &sample_event("a", 300)).unwrap();
    let b = insert_event(&mut reg, &sample_event("b", 301)).unwrap();
    insert_channels(&mut reg, a, vec![201]).unwrap();
    let r = insert_channels(&mut reg, b, vec![201]);
    assert_eq!(r.unwrap_err(), RegistryError::StorageError);
    assert_eq!(get_event_by_channel(&reg, 201).unwrap().0, a);
}

#[test]
fn insert_channels_repeated_in_batch_fails() {
    let mut reg = Registry::new();
    let a = insert_event(&mut reg, &sample_event("a", 300)).unwrap();
    let r = insert_channels(&mut reg, a, vec![201, 201]);
    assert_eq!(r.unwrap_err(), RegistryError::StorageError);
    assert!(get_channels_by_event_id(&reg, a).is_empty());
}

#[test]
fn get_channels_by_event_id_keeps_order() {
    let mut reg = Registry::new();
    let a = insert_event(&mut reg, &sample_event("a", 300)).unwrap();
    insert_channels(&mut reg, a, vec![205, 201, 203]).unwrap();
    assert_eq!(get_channels_by_event_id(&reg, a), vec![205, 201, 203]);
    assert!(get_channels_by_event_id(&reg, a + 1).is_empty());
}

#[test]
fn get_event_by_manifest_resolves_announcement() {
    let mut reg = Registry::new();
    let _a = insert_event(&mut reg, &sample_event("a", 300)).unwrap();
    let b = insert_event(&mut reg, &sample_event("b", 301)).unwrap();
    let (id, data) = get_event_by_manifest(&reg, 301).unwrap();
    assert_eq!(id, b);
    assert_eq!(data.name, "b");
}

#[test]
fn get_event_by_manifest_unknown_is_not_found() {
    let mut reg = Registry::new();
    insert_event(&mut reg, &sample_event("a", 300)).unwrap();
    assert_eq!(get_event_by_manifest(&reg, 999).unwrap_err(), RegistryError::NotFound);
}

#[test]
fn get_all_events_returns_every_row() {
    let mut reg = Registry::new();
    let a = insert_event(&mut reg, &sample_event("a", 300)).unwrap();
    let b = insert_event(&mut reg, &sample_event("b", 301)).unwrap();
    let all = get_all_events(&reg);
    assert_eq!(all.len(), 2);
    assert_eq!(all[0].0, a);
    assert_eq!(all[0].1.name, "a");
    assert_eq!(all[1].0, b);
    assert_eq!(all[1].1.name, "b");
}

#[test]
fn delete_event_cascades_channel_links() {
    let mut reg = Registry::new();
    let a = insert_event(&mut reg, &sample_event("a", 300)).unwrap();
    let b = insert_event(&mut reg, &sample_event("b", 301)).unwrap();
    insert_channels(&mut reg, a, vec![201, 202]).unwrap();
    insert_channels(&mut reg, b, vec![203]).unwrap();
    let removed = delete_event(&mut reg, a);
    assert_eq!(removed, 2);
    assert_eq!(get_event_by_channel(&reg, 201).unwrap_err(), RegistryError::NotFound);
    assert_eq!(get_event_by_channel(&reg, 202).unwrap_err(), RegistryError::NotFound);
    assert_eq!(get_event_by_channel(&reg, 203).unwrap().0, b);
    assert_eq!(get_all_events(&reg).len(), 1);
}

#[test]
fn delete_event_unknown_id_affects_zero_rows() {
    let mut reg = Registry::new();
    let a = insert_event(&mut reg, &sample_event("a", 300)).unwrap();
    insert_channels(&mut reg, a, vec![201]).unwrap();
    assert_eq!(delete_event(&mut reg, 99), 0);
    assert_eq!(get_all_events(&reg).len(), 1);
    assert_eq!(get_channels_by_event_id(&reg, a), vec![201]);
}

#[test]
fn delete_event_twice_is_safe() {
    let mut reg = Registry::new();
    let a = insert_event(&mut reg, &sample_event("a", 300)).unwrap();
    insert_channels(&mut reg, a, vec![201]).unwrap();
    assert_eq!(delete_event(&mut reg, a), 1);
    assert_eq!(delete_event(&mut reg, a), 0);
    assert!(get_all_events(&reg).is_empty());
    assert!(get_channels_by_event_id(&reg, a).is_empty());
}

#[test]
fn manager_role_record_lifecycle() {
    let mut reg = Registry::new();
    assert_eq!(get_server_manager_role_id(&reg, 10).unwrap_err(), RegistryError::NotInitialized);
    insert_server_manager_role(&mut reg, 10, 77).unwrap();
    assert_eq!(get_server_manager_role_id(&reg, 10).unwrap(), 77);
    assert_eq!(
        insert_server_manager_role(&mut reg, 10, 88).unwrap_err(),
        RegistryError::StorageError
    );
    assert_eq!(get_server_manager_role_id(&reg, 10).unwrap(), 77);
    assert_eq!(delete_server_manager_role(&mut reg, 10), 1);
    assert_eq!(get_server_manager_role_id(&reg, 10).unwrap_err(), RegistryError::NotInitialized);
    assert_eq!(delete_server_manager_role(&mut reg, 10), 0);
}
