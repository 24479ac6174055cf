use bacchus::bacchus_handler::{join_marker, BacchusHandler, ReactionNotice, RoleMutation};
use bacchus::events::{delete_event, insert_event, EventData, Registry};

fn tracked_registry() -> (Registry, u64) {
    let mut reg = Registry::new();
    let id = insert_event(
        &mut reg,
        &EventData {
            name: "LAN Party".to_string(),
            short_description: None,
            description: None,
            thumbnail: None,
            picture: None,
            max_participants: None,
            server_id: 10,
            manager_role_id: 101,
            participant_role_id: 102,
            manifest_id: 300,
            manifest_channel_id: 30,
            category_id: 200,
        },
    )
    .unwrap();
    (reg, id)
}

fn join_notice() -> ReactionNotice {
    ReactionNotice {
        emoji: join_marker(),
        message_id: 300,
        guild_id: Some(10),
        user_id: Some(55),
    }
}

#[test]
fn join_marker_is_the_check_mark() {
    assert_eq!(join_marker(), "\u{2705}");
}

#[test]
fn join_reaction_grants_participant_role() {
    let (reg, _id) = tracked_registry();
    let handler = BacchusHandler;
    let out = handler.reaction_add(&reg, &join_notice());
    assert_eq!(out, RoleMutation::Grant { guild_id: 10, user_id: 55, role_id: 102 });
}

#[test]
fn reaction_remove_revokes_the_same_role() {
    let (reg, _id) = tracked_registry();
    let handler = BacchusHandler;
    let granted = handler.reaction_add(&reg, &join_notice());
    let revoked = handler.reaction_remove(&reg, &join_notice());
    assert_eq!(granted, RoleMutation::Grant { guild_id: 10, user_id: 55, role_id: 102 });
    assert_eq!(revoked, RoleMutation::Revoke { guild_id: 10, user_id: 55, role_id: 102 });
}

#[test]
fn other_emoji_is_a_no_op() {
    let (reg, _id) = tracked_registry();
    let handler = BacchusHandler;
    let notice = ReactionNotice {
        emoji: "\u{1F389}".to_string(),
        message_id: 300,
        guild_id: Some(10),
        user_id: Some(55),
    };
    assert_eq!(handler.reaction_add(&reg, &notice), RoleMutation::Ignored);
    assert_eq!(handler.reaction_remove(&reg, &notice), RoleMutation::Ignored);
}

#[test]
fn untracked_message_is_ignored() {
    let (reg, _id) = tracked_registry();
    let handler = BacchusHandler;
    let notice = ReactionNotice {
        emoji: join_marker(),
        message_id: 999,
        guild_id: Some(10),
        user_id: Some(55),
    };
    assert_eq!(handler.reaction_add(&reg, &notice), RoleMutation::Ignored);
}

#[test]
fn reaction_outside_a_server_is_ignored() {
    let (reg, _id) = tracked_registry();
    let handler = BacchusHandler;
    let notice = ReactionNotice {
        emoji: join_marker(),
        message_id: 300,
        guild_id: None,
        user_id: Some(55),
    };
    assert_eq!(handler.reaction_add(&reg, &notice), RoleMutation::Ignored);
}

#[test]
fn authorless_reaction_is_fatal_for_that_notification_only() {
    let (reg, _id) = tracked_registry();
    let handler = BacchusHandler;
    let notice = ReactionNotice {
        emoji: join_marker(),
        message_id: 300,
        guild_id: Some(10),
        user_id: None,
    };
    assert_eq!(handler.reaction_add(&reg, &notice), RoleMutation::MissingUser);
}

#[test]
fn reaction_for_a_freshly_deleted_event_is_dropped() {
    let (mut reg, id) = tracked_registry();
    delete_event(&mut reg, id);
    let handler = BacchusHandler;
    assert_eq!(handler.reaction_add(&reg, &join_notice()), RoleMutation::Ignored);
}
