use agilus::api::ApiError;
use agilus::model::{
    CreateTicket, CreateTicketStatus, CreateTicketType, CreateUser, UpdateTicket,
    UpdateTicketStatus, UpdateTicketType, UpdateUser,
};
use agilus::store::{TicketStatusStore, TicketStore, TicketTypeStore, UserStore};
use agilus::ticket_statuses::{
    create_ticket_status, delete_ticket_status, get_ticket_status, list_ticket_statuses,
    update_ticket_status,
};
use agilus::ticket_types::{
    create_ticket_type, delete_ticket_type, get_ticket_type, list_ticket_types,
    update_ticket_type,
};
use agilus::tickets::{create_ticket, delete_ticket, get_ticket, list_tickets, update_ticket};
use agilus::users::{create_user, delete_user, get_user, list_users, update_user};
use agilus::{healthcheck_body, root_banner};

fn ticket_payload(title: &str) -> CreateTicket {
    CreateTicket {
        title: title.to_string(),
        description: "D".to_string(),
        type_id: 1,
        status_id: 1,
        author_id: 1,
        assignee_id: Some(2),
    }
}

#[test]
fn banner_and_healthcheck() {
    assert_eq!(root_banner(), "Agilus");
    assert_eq!(healthcheck_body(), "OK");
}

#[test]
fn create_user_assigns_id_one() {
    let mut store = UserStore::new();
    let created = create_user(&mut store, CreateUser { name: "Alice".to_string() }).unwrap();
    assert_eq!(created.id, 1);
    assert_eq!(created.name, "Alice");
}

#[test]
fn created_ids_are_unique() {
    let mut store = UserStore::new();
    let a = create_user(&mut store, CreateUser { name: "Alice".to_string() }).unwrap();
    let b = create_user(&mut store, CreateUser { name: "Bob".to_string() }).unwrap();
    // The second id is fresh even after the first entity is deleted.
    delete_user(&mut store, a.id).unwrap();
    let c = create_user(&mut store, CreateUser { name: "Carol".to_string() }).unwrap();
    assert_ne!(a.id, b.id);
    assert_ne!(b.id, c.id);
    assert_ne!(a.id, c.id);
}

#[test]
fn create_user_keeps_submitted_fields() {
    let mut store = UserStore::new();
    let created = create_user(&mut store, CreateUser { name: "Dana".to_string() }).unwrap();
    assert_eq!(created.name, "Dana");
}

#[test]
fn create_user_rejects_empty_name() {
    let mut store = UserStore::new();
    let r = create_user(&mut store, CreateUser { name: String::new() });
    assert!(matches!(r, Err(ApiError::Unprocessable)));
    assert_eq!(ApiError::Unprocessable.http_status(), 422);
    assert_eq!(list_users(&store).len(), 0);
}

#[test]
fn get_user_on_empty_store_is_not_found() {
    let store = UserStore::new();
    let r = get_user(&store, 999);
    assert!(matches!(r, Err(ApiError::NotFound)));
    assert_eq!(ApiError::NotFound.http_status(), 404);
}

#[test]
fn never_inserted_id_is_not_found_everywhere() {
    let mut store = UserStore::new();
    create_user(&mut store, CreateUser { name: "Alice".to_string() }).unwrap();
    assert!(matches!(get_user(&store, 77), Err(ApiError::NotFound)));
    let upd = update_user(&mut store, 77, UpdateUser { name: "X".to_string() });
    assert!(matches!(upd, Err(ApiError::NotFound)));
    assert!(matches!(delete_user(&mut store, 77), Err(ApiError::NotFound)));
}

#[test]
fn create_then_get_round_trip() {
    let mut store = UserStore::new();
    let created = create_user(&mut store, CreateUser { name: "Erin".to_string() }).unwrap();
    let fetched = get_user(&store, created.id).unwrap();
    assert_eq!(fetched.id, created.id);
    assert_eq!(fetched.name, created.name);
}

#[test]
fn list_users_keeps_insertion_order() {
    let mut store = UserStore::new();
    assert!(list_users(&store).is_empty());
    create_user(&mut store, CreateUser { name: "a".to_string() }).unwrap();
    create_user(&mut store, CreateUser { name: "b".to_string() }).unwrap();
    create_user(&mut store, CreateUser { name: "c".to_string() }).unwrap();
    let all = list_users(&store);
    let names: Vec<&str> = all.iter().map(|u| u.name.as_str()).collect();
    assert_eq!(names, vec!["a", "b", "c"]);
}

#[test]
fn update_user_replaces_name() {
    let mut store = UserStore::new();
    let created = create_user(&mut store, CreateUser { name: "Old".to_string() }).unwrap();
    let updated = update_user(&mut store, created.id, UpdateUser { name: "New".to_string() })
        .unwrap();
    assert_eq!(updated.id, created.id);
    assert_eq!(updated.name, "New");
    let fetched = get_user(&store, created.id).unwrap();
    assert_eq!(fetched.name, "New");
}

#[test]
fn delete_user_message_names_the_id() {
    let mut store = UserStore::new();
    let created = create_user(&mut store, CreateUser { name: "Gone".to_string() }).unwrap();
    let msg = delete_user(&mut store, created.id).unwrap();
    assert_eq!(msg, "Deleted user 1");
    assert!(matches!(get_user(&store, created.id), Err(ApiError::NotFound)));
}

#[test]
fn repeated_delete_is_not_found() {
    let mut store = UserStore::new();
    let created = create_user(&mut store, CreateUser { name: "Once".to_string() }).unwrap();
    assert!(delete_user(&mut store, created.id).is_ok());
    assert!(matches!(delete_user(&mut store, created.id), Err(ApiError::NotFound)));
    assert!(matches!(delete_user(&mut store, created.id), Err(ApiError::NotFound)));
}

#[test]
fn delete_leaves_other_entities_in_order() {
    let mut store = UserStore::new();
    create_user(&mut store, CreateUser { name: "a".to_string() }).unwrap();
    let b = create_user(&mut store, CreateUser { name: "b".to_string() }).unwrap();
    create_user(&mut store, CreateUser { name: "c".to_string() }).unwrap();
    delete_user(&mut store, b.id).unwrap();
    let all = list_users(&store);
    let names: Vec<&str> = all.iter().map(|u| u.name.as_str()).collect();
    assert_eq!(names, vec!["a", "c"]);
}

#[test]
fn create_ticket_keeps_submitted_fields() {
    let mut store = TicketStore::new();
    let t = create_ticket(&mut store, ticket_payload("T")).unwrap();
    assert_eq!(t.id, 1);
    assert_eq!(t.title, "T");
    assert_eq!(t.description, "D");
    assert_eq!(t.type_id, 1);
    assert_eq!(t.status_id, 1);
    assert_eq!(t.author_id, 1);
    assert_eq!(t.assignee_id, 2);
}

#[test]
fn create_ticket_without_assignee_is_unprocessable() {
    let mut store = TicketStore::new();
    let mut payload = ticket_payload("T");
    payload.assignee_id = None;
    let r = create_ticket(&mut store, payload);
    assert!(matches!(r, Err(ApiError::Unprocessable)));
    assert_eq!(ApiError::Unprocessable.http_status(), 422);
    assert!(list_tickets(&store).is_empty());
}

#[test]
fn create_ticket_with_empty_title_is_unprocessable() {
    let mut store = TicketStore::new();
    let r = create_ticket(&mut store, ticket_payload(""));
    assert!(matches!(r, Err(ApiError::Unprocessable)));
}

#[test]
fn create_ticket_accepts_empty_description() {
    let mut store = TicketStore::new();
    let mut payload = ticket_payload("T");
    payload.description = String::new();
    let t = create_ticket(&mut store, payload).unwrap();
    assert_eq!(t.description, "");
}

#[test]
fn ticket_patch_changes_only_the_title() {
    let mut store = TicketStore::new();
    let before = create_ticket(&mut store, ticket_payload("old title")).unwrap();
    let patch = UpdateTicket {
        title: Some("new".to_string()),
        description: None,
        type_id: None,
        status_id: None,
        author_id: None,
        assignee_id: None,
    };
    let after = update_ticket(&mut store, before.id, patch).unwrap();
    assert_eq!(after.title, "new");
    assert_eq!(after.id, before.id);
    assert_eq!(after.description, before.description);
    assert_eq!(after.type_id, before.type_id);
    assert_eq!(after.status_id, before.status_id);
    assert_eq!(after.author_id, before.author_id);
    assert_eq!(after.assignee_id, before.assignee_id);
    let fetched = get_ticket(&store, before.id).unwrap();
    assert_eq!(fetched.title, "new");
    assert_eq!(fetched.description, before.description);
}

#[test]
fn ticket_patch_replaces_every_given_field() {
    let mut store = TicketStore::new();
    let before = create_ticket(&mut store, ticket_payload("t")).unwrap();
    let patch = UpdateTicket {
        title: Some("t2".to_string()),
        description: Some("d2".to_string()),
        type_id: Some(7),
        status_id: Some(8),
        author_id: Some(9),
        assignee_id: Some(10),
    };
    let after = update_ticket(&mut store, before.id, patch).unwrap();
    assert_eq!(after.id, before.id);
    assert_eq!(after.title, "t2");
    assert_eq!(after.description, "d2");
    assert_eq!(after.type_id, 7);
    assert_eq!(after.status_id, 8);
    assert_eq!(after.author_id, 9);
    assert_eq!(after.assignee_id, 10);
}

#[test]
fn ticket_update_on_unknown_id_is_not_found() {
    let mut store = TicketStore::new();
    let patch = UpdateTicket {
        title: Some("x".to_string()),
        description: None,
        type_id: None,
        status_id: None,
        author_id: None,
        assignee_id: None,
    };
    assert!(matches!(update_ticket(&mut store, 3, patch), Err(ApiError::NotFound)));
}

#[test]
fn delete_ticket_message_names_the_id() {
    let mut store = TicketStore::new();
    let t = create_ticket(&mut store, ticket_payload("T")).unwrap();
    let msg = delete_ticket(&mut store, t.id).unwrap();
    assert_eq!(msg, "Deleted ticket 1");
}

#[test]
fn delete_existing_ticket_type_confirms_with_the_id() {
    let mut store = TicketTypeStore::new();
    for name in ["bug", "task", "epic", "chore", "story"] {
        create_ticket_type(&mut store, CreateTicketType { name: name.to_string() }).unwrap();
    }
    let msg = delete_ticket_type(&mut store, 5).unwrap();
    assert!(msg.contains('5'));
    assert_eq!(msg, "Deleted ticket type 5");
    assert_eq!(list_ticket_types(&store).len(), 4);
}

#[test]
fn ticket_type_crud_round_trip() {
    let mut store = TicketTypeStore::new();
    let created = create_ticket_type(&mut store, CreateTicketType { name: "bug".to_string() })
        .unwrap();
    let fetched = get_ticket_type(&store, created.id).unwrap();
    assert_eq!(fetched.id, created.id);
    assert_eq!(fetched.name, "bug");
    let updated = update_ticket_type(
        &mut store,
        created.id,
        UpdateTicketType { name: "defect".to_string() },
    )
    .unwrap();
    assert_eq!(updated.name, "defect");
    assert!(matches!(get_ticket_type(&store, 99), Err(ApiError::NotFound)));
}

#[test]
fn ticket_status_crud_round_trip() {
    let mut store = TicketStatusStore::new();
    let created = create_ticket_status(
        &mut store,
        CreateTicketStatus { name: "open".to_string() },
    )
    .unwrap();
    let fetched = get_ticket_status(&store, created.id).unwrap();
    assert_eq!(fetched.id, created.id);
    assert_eq!(fetched.name, "open");
    let updated = update_ticket_status(
        &mut store,
        created.id,
        UpdateTicketStatus { name: "closed".to_string() },
    )
    .unwrap();
    assert_eq!(updated.name, "closed");
    let msg = delete_ticket_status(&mut store, created.id).unwrap();
    assert_eq!(msg, "Deleted ticket status 1");
    assert!(list_ticket_statuses(&store).is_empty());
}

#[test]
fn internal_error_status_is_500() {
    assert_eq!(ApiError::Internal.http_status(), 500);
}
