use bacchus::bacchus::{
    authorize, compose_announcement, init, list, manager_role_name, member, permission_template,
    role_names, teardown_plan, AuthDecision, CreateSession, InitStep, MemberCommand,
    PermissionTarget, RoleChange, MANAGE_CHANNELS, SEND_MESSAGES, VIEW_CHANNEL,
};
use bacchus::events::{
    delete_event, get_all_events, get_channels_by_event_id, get_event_by_channel, insert_channels,
    insert_event, EventData, Registry, RegistryError,
};

fn complete_session(name: &str) -> CreateSession {
    let mut s = CreateSession::begin(
        10,
        20,
        30,
        name.to_string(),
        None,
        None,
        None,
        None,
    );
    s.on_roles_created(101, 102);
    s.on_creator_granted();
    s.on_category_created(200);
    s.on_channel_created(201);
    s.on_published(300);
    s.on_marked();
    s
}

#[test]
fn create_persists_one_complete_event_row() {
    let mut reg = Registry::new();
    let s = complete_session("LAN Party");
    let id = s.persist(&mut reg).unwrap();
    let all = get_all_events(&reg);
    assert_eq!(all.len(), 1);
    let (row_id, data) = &all[0];
    assert_eq!(*row_id, id);
    assert!(data.server_id != 0);
    assert!(data.manager_role_id != 0);
    assert!(data.participant_role_id != 0);
    assert!(data.manifest_id != 0);
    assert!(data.manifest_channel_id != 0);
    assert!(data.category_id != 0);
    assert_eq!(get_channels_by_event_id(&reg, id), vec![201]);
}

#[test]
fn lan_party_scenario_create_then_delete() {
    let mut reg = Registry::new();
    let s = complete_session("LAN Party");
    let id = s.persist(&mut reg).unwrap();

    let all = get_all_events(&reg);
    assert_eq!(all.len(), 1);
    assert_eq!(all[0].1.name, "LAN Party");
    assert!(all[0].1.short_description.is_none());
    assert_eq!(get_channels_by_event_id(&reg, id), vec![201]);

    let (found_id, event) = get_event_by_channel(&reg, 201).unwrap();
    assert_eq!(found_id, id);
    let plan = teardown_plan(found_id, &event, get_channels_by_event_id(&reg, found_id));
    delete_event(&mut reg, plan.event_id);

    assert!(get_all_events(&reg).is_empty());
    assert!(get_channels_by_event_id(&reg, id).is_empty());
    assert_eq!(get_event_by_channel(&reg, 201).unwrap_err(), RegistryError::NotFound);
}

#[test]
fn second_delete_finds_nothing() {
    let mut reg = Registry::new();
    let s = complete_session("LAN Party");
    let id = s.persist(&mut reg).unwrap();
    let (found_id, _event) = get_event_by_channel(&reg, 201).unwrap();
    assert_eq!(found_id, id);
    delete_event(&mut reg, found_id);
    // a second teardown of the same channel begins with the lookup,
    // which now reports a user-facing NotFound instead of crashing
    assert_eq!(get_event_by_channel(&reg, 201).unwrap_err(), RegistryError::NotFound);
    assert_eq!(delete_event(&mut reg, found_id), 0);
}

#[test]
fn persist_refuses_already_linked_general_channel() {
    let mut reg = Registry::new();
    let other = insert_event(
        &mut reg,
        &EventData {
            name: "other".to_string(),
            short_description: None,
            description: None,
            thumbnail: None,
            picture: None,
            max_participants: None,
            server_id: 10,
            manager_role_id: 111,
            participant_role_id: 112,
            manifest_id: 299,
            manifest_channel_id: 31,
            category_id: 210,
        },
    )
    .unwrap();
    insert_channels(&mut reg, other, vec![201]).unwrap();
    let s = complete_session("LAN Party");
    assert_eq!(s.persist(&mut reg).unwrap_err(), RegistryError::StorageError);
    assert_eq!(get_all_events(&reg).len(), 1);
}

#[test]
fn authorize_requires_configured_role_and_membership() {
    assert_eq!(
        authorize(Err(RegistryError::NotInitialized), true),
        AuthDecision::NotInitialized
    );
    assert_eq!(authorize(Ok(77), false), AuthDecision::Denied);
    assert_eq!(authorize(Ok(77), true), AuthDecision::Allowed { manager_role_id: 77 });
}

#[test]
fn role_names_follow_convention() {
    let (manager, player) = role_names(&"LAN Party".to_string());
    assert_eq!(manager, "LAN Party-manager");
    assert_eq!(player, "LAN Party-player");
}

#[test]
fn permission_template_has_exactly_four_entries() {
    let t = permission_template(1, 2, 3, 4);
    assert_eq!(t.len(), 4);
    assert_eq!(t[0].target, PermissionTarget::Role(1));
    assert_eq!(t[0].allow, 0);
    assert_eq!(t[0].deny, VIEW_CHANNEL);
    assert_eq!(t[1].target, PermissionTarget::Role(2));
    assert_eq!(t[1].allow, VIEW_CHANNEL | SEND_MESSAGES);
    assert_eq!(t[1].deny, 0);
    assert_eq!(t[2].target, PermissionTarget::Role(3));
    assert_eq!(t[2].allow, MANAGE_CHANNELS | VIEW_CHANNEL | SEND_MESSAGES);
    assert_eq!(t[2].deny, 0);
    assert_eq!(t[3].target, PermissionTarget::Member(4));
    assert_eq!(t[3].allow, VIEW_CHANNEL | MANAGE_CHANNELS | SEND_MESSAGES);
    assert_eq!(t[3].deny, 0);
}

#[test]
fn announcement_carries_all_parts() {
    let a = compose_announcement(
        &"LAN Party".to_string(),
        &Some("bring cables".to_string()),
        &Some("short".to_string()),
        &Some("http://thumb".to_string()),
        &Some("http://pic".to_string()),
        &"alice".to_string(),
    );
    assert_eq!(a.title, "LAN Party");
    assert_eq!(a.description, "bring cables");
    assert_eq!(a.creator_field, "alice");
    assert_eq!(a.summary_field.as_deref(), Some("short"));
    assert_eq!(a.thumbnail.as_deref(), Some("http://thumb"));
    assert_eq!(a.image.as_deref(), Some("http://pic"));
    assert_eq!(a.footer, "React with \u{2705} to join the event");
    assert_eq!(
        a.content,
        ":trumpet: :trumpet: :trumpet: NEW EVENT :trumpet: :trumpet: :trumpet:"
    );
}

#[test]
fn announcement_defaults_without_optionals() {
    let a = compose_announcement(
        &"LAN Party".to_string(),
        &None,
        &None,
        &None,
        &None,
        &"alice".to_string(),
    );
    assert_eq!(a.description, "");
    assert!(a.summary_field.is_none());
    assert!(a.thumbnail.is_none());
    assert!(a.image.is_none());
}

#[test]
fn teardown_plan_orders_roles_channels_manifest() {
    let event = EventData {
        name: "LAN Party".to_string(),
        short_description: None,
        description: None,
        thumbnail: None,
        picture: None,
        max_participants: None,
        server_id: 10,
        manager_role_id: 101,
        participant_role_id: 102,
        manifest_id: 300,
        manifest_channel_id: 30,
        category_id: 200,
    };
    let plan = teardown_plan(5, &event, vec![201, 202]);
    assert_eq!(plan.event_id, 5);
    assert_eq!(plan.role_ids, vec![101, 102]);
    assert_eq!(plan.channel_ids, vec![201, 202, 200]);
    assert_eq!(plan.manifest_channel_id, 30);
    assert_eq!(plan.manifest_id, 300);
    assert_eq!(plan.farewell, "Deleting event LAN Party. Goodbye !");
}

#[test]
fn list_empty_registry_has_no_events_reply() {
    let reg = Registry::new();
    let body = list(&get_all_events(&reg));
    assert_eq!(body, "No events registered. Use `event create` to register one !");
}

#[test]
fn list_returns_every_name() {
    let mut reg = Registry::new();
    let s = complete_session("LAN Party");
    s.persist(&mut reg).unwrap();
    let mut t = CreateSession::begin(
        10,
        20,
        31,
        "Game Night".to_string(),
        None,
        None,
        None,
        None,
    );
    t.on_roles_created(111, 112);
    t.on_creator_granted();
    t.on_category_created(210);
    t.on_channel_created(211);
    t.on_published(301);
    t.on_marked();
    t.persist(&mut reg).unwrap();
    let body = list(&get_all_events(&reg));
    assert_eq!(body, "LAN Party\nGame Night");
}

#[test]
fn member_commands_pick_the_right_role() {
    let mut reg = Registry::new();
    let s = complete_session("LAN Party");
    let id = s.persist(&mut reg).unwrap();
    assert_eq!(get_event_by_channel(&reg, 201).unwrap().0, id);
    assert_eq!(
        member(&reg, MemberCommand::Add, 201, 55).unwrap(),
        RoleChange { user_id: 55, role_id: 102, grant: true }
    );
    assert_eq!(
        member(&reg, MemberCommand::Remove, 201, 55).unwrap(),
        RoleChange { user_id: 55, role_id: 102, grant: false }
    );
    assert_eq!(
        member(&reg, MemberCommand::AddManager, 201, 55).unwrap(),
        RoleChange { user_id: 55, role_id: 101, grant: true }
    );
}

#[test]
fn member_outside_event_channel_is_not_found() {
    let reg = Registry::new();
    assert_eq!(
        member(&reg, MemberCommand::Add, 201, 55).unwrap_err(),
        RegistryError::NotFound
    );
}

#[test]
fn init_decides_provision_reprovision_or_nothing() {
    assert_eq!(init(Err(RegistryError::NotInitialized), false), InitStep::Provision);
    assert_eq!(init(Ok(77), false), InitStep::Reprovision);
    assert_eq!(init(Ok(77), true), InitStep::AlreadyInitialized { role_id: 77 });
}

#[test]
fn manager_role_name_is_the_convention() {
    assert_eq!(manager_role_name(), "Menad");
}
