use edge_api::envelope::{JsonReply, Rejection};
use edge_api::sql::{Query, SqlValue};
use edge_api::users::{
    apply_update, check_create, create_user_after_insert, create_user_after_lookup,
    delete_user_reply, get_user_reply, handle_create_user, handle_delete_user, handle_get_user,
    handle_update_user, insert_query, new_user, update_user_after_body, update_user_after_lookup,
    update_user_after_write, CreateUserRequest, CreateUserStep, NewUser, UpdateUserRequest,
    UpdateUserStep, User,
};

fn request(name: &str, email: &str) -> CreateUserRequest {
    CreateUserRequest { name: name.to_string(), email: email.to_string() }
}

fn ada() -> User {
    User {
        id: "u-1".to_string(),
        name: "Ada".to_string(),
        email: "ada@example.com".to_string(),
        created_at: "2024-01-01T00:00:00+00:00".to_string(),
    }
}

fn refusal(step: CreateUserStep) -> JsonReply<User> {
    match step {
        CreateUserStep::Respond(reply) => reply,
        other => panic!("expected an answer, got {:?}", other),
    }
}

fn update_refusal(step: UpdateUserStep) -> JsonReply<User> {
    match step {
        UpdateUserStep::Respond(reply) => reply,
        other => panic!("expected an answer, got {:?}", other),
    }
}

/// Runs the create protocol against a list of stored users.
fn create(store: &mut Vec<User>, body: Option<CreateUserRequest>) -> JsonReply<User> {
    let mut step = handle_create_user(body);
    loop {
        step = match step {
            CreateUserStep::FindEmail { pending, query } => {
                let key = match query.binds().remove(0) {
                    SqlValue::Text(text) => text,
                    other => panic!("expected a text, got {:?}", other),
                };
                let exists = store.iter().any(|u| u.email == key);
                create_user_after_lookup(pending, exists)
            }
            CreateUserStep::Insert { user, query } => {
                assert!(matches!(query, Query::InsertUser { .. }));
                store.push(user.clone());
                CreateUserStep::Respond(create_user_after_insert(user))
            }
            CreateUserStep::Respond(reply) => return reply,
        };
    }
}

#[test]
fn create_with_unparsed_body_is_400() {
    let reply = refusal(handle_create_user(None));
    assert_eq!(reply.status, 400);
    assert!(!reply.body.success);
    assert_eq!(reply.body.data, None);
    assert_eq!(reply.body.error, Some("Invalid JSON body".to_string()));
}

#[test]
fn create_with_blank_name_is_400() {
    let reply = refusal(handle_create_user(Some(request(" ", "a@b.c"))));
    assert_eq!(reply.status, 400);
    assert!(!reply.body.success);
    assert_eq!(reply.body.data, None);
    assert_eq!(reply.body.error, Some("Name is required".to_string()));
}

#[test]
fn create_with_email_without_at_is_400() {
    let reply = refusal(handle_create_user(Some(request("Ada", "no-at-sign"))));
    assert_eq!(reply.status, 400);
    assert!(!reply.body.success);
    assert_eq!(reply.body.error, Some("Invalid email".to_string()));
}

#[test]
fn create_checks_the_name_before_the_email() {
    let reply = refusal(handle_create_user(Some(request("", "no-at-sign"))));
    assert_eq!(reply.body.error, Some("Name is required".to_string()));
    assert_eq!(check_create(&request("\t", "x")), Err(Rejection::NameRequired));
    assert_eq!(check_create(&request("x", "x")), Err(Rejection::InvalidEmail));
}

#[test]
fn create_normalizes_name_and_email() {
    let step = handle_create_user(Some(request("  Ada Lovelace ", "Ada@Example.COM")));
    match step {
        CreateUserStep::FindEmail { pending, query } => {
            assert_eq!(pending.name, "Ada Lovelace");
            assert_eq!(pending.email, "ada@example.com");
            assert_eq!(query, Query::FindUserByEmail { email: "ada@example.com".to_string() });
        }
        other => panic!("expected a lookup, got {:?}", other),
    }
}

#[test]
fn create_lower_cases_beyond_ascii() {
    let pending = check_create(&request("x", "\u{c4}RGER@\u{d6}L.DE")).unwrap();
    assert_eq!(pending.email, "\u{e4}rger@\u{f6}l.de");
}

#[test]
fn create_with_taken_email_is_409() {
    let pending = NewUser { name: "Ada".to_string(), email: "ada@example.com".to_string() };
    let reply = refusal(create_user_after_lookup(pending, true));
    assert_eq!(reply.status, 409);
    assert!(!reply.body.success);
    assert_eq!(reply.body.data, None);
    assert_eq!(reply.body.error, Some("Email already exists".to_string()));
}

#[test]
fn create_with_free_email_stores_the_user() {
    let pending = NewUser { name: "Ada".to_string(), email: "ada@example.com".to_string() };
    match create_user_after_lookup(pending, false) {
        CreateUserStep::Insert { user, query } => {
            assert_eq!(user.name, "Ada");
            assert_eq!(user.email, "ada@example.com");
            assert_eq!(user.id.len(), 36);
            assert_eq!(user.id.chars().filter(|c| *c == '-').count(), 4);
            assert!(chrono::DateTime::parse_from_rfc3339(&user.created_at).is_ok());
            assert_eq!(
                query,
                Query::InsertUser {
                    id: user.id.clone(),
                    name: user.name.clone(),
                    email: user.email.clone(),
                    created_at: user.created_at.clone(),
                }
            );
        }
        other => panic!("expected an insert, got {:?}", other),
    }
}

#[test]
fn created_users_get_different_ids() {
    let a = NewUser { name: "A".to_string(), email: "a@x".to_string() };
    let b = NewUser { name: "B".to_string(), email: "b@x".to_string() };
    let first = create_user_after_lookup(a, false);
    let second = create_user_after_lookup(b, false);
    match (first, second) {
        (CreateUserStep::Insert { user: x, .. }, CreateUserStep::Insert { user: y, .. }) => {
            assert_ne!(x.id, y.id);
        }
        other => panic!("expected two inserts, got {:?}", other),
    }
}

#[test]
fn created_user_goes_out_with_201() {
    let reply = create_user_after_insert(ada());
    assert_eq!(reply.status, 201);
    assert!(reply.body.success);
    assert_eq!(reply.body.data, Some(ada()));
    assert_eq!(reply.body.error, None);
}

#[test]
fn create_twice_with_same_email_is_409() {
    let mut store: Vec<User> = Vec::new();
    let first = create(&mut store, Some(request("Ada", "Ada@Example.com")));
    assert_eq!(first.status, 201);
    assert_eq!(store.len(), 1);
    let second = create(&mut store, Some(request("Other Ada", "ADA@EXAMPLE.COM")));
    assert_eq!(second.status, 409);
    assert_eq!(second.body.error, Some("Email already exists".to_string()));
    assert_eq!(store.len(), 1);
}

#[test]
fn new_user_takes_each_field() {
    let pending = NewUser { name: "Ada".to_string(), email: "ada@example.com".to_string() };
    let user = new_user("u-1".to_string(), "2024-01-01T00:00:00+00:00".to_string(), pending);
    assert_eq!(user, ada());
    assert_eq!(
        insert_query(&user).binds(),
        vec![
            SqlValue::Text("u-1".to_string()),
            SqlValue::Text("Ada".to_string()),
            SqlValue::Text("ada@example.com".to_string()),
            SqlValue::Text("2024-01-01T00:00:00+00:00".to_string()),
        ]
    );
}

#[test]
fn get_user_looks_the_id_up() {
    assert_eq!(handle_get_user("u-1"), Query::FindUserById { id: "u-1".to_string() });
}

#[test]
fn get_user_found_is_200() {
    let reply = get_user_reply(Some(ada()));
    assert_eq!(reply.status, 200);
    assert!(reply.body.success);
    assert_eq!(reply.body.data, Some(ada()));
    assert_eq!(reply.body.error, None);
}

#[test]
fn get_user_missing_is_404() {
    let reply = get_user_reply(None);
    assert_eq!(reply.status, 404);
    assert!(!reply.body.success);
    assert_eq!(reply.body.data, None);
    assert_eq!(reply.body.error, Some("User not found".to_string()));
}

#[test]
fn update_starts_with_the_lookup() {
    assert_eq!(
        handle_update_user("u-1"),
        UpdateUserStep::FindUser { query: Query::FindUserById { id: "u-1".to_string() } }
    );
}

#[test]
fn update_of_missing_user_is_404_before_the_body_is_read() {
    let reply = update_refusal(update_user_after_lookup(None));
    assert_eq!(reply.status, 404);
    assert_eq!(reply.body.error, Some("User not found".to_string()));
    assert_eq!(update_user_after_lookup(Some(ada())), UpdateUserStep::ReadBody { user: ada() });
}

#[test]
fn update_with_unparsed_body_is_400() {
    let reply = update_refusal(update_user_after_body("u-1", ada(), None));
    assert_eq!(reply.status, 400);
    assert_eq!(reply.body.error, Some("Invalid JSON body".to_string()));
}

#[test]
fn update_with_blank_name_is_400() {
    let input = UpdateUserRequest { name: Some("  ".to_string()), email: None };
    let reply = update_refusal(update_user_after_body("u-1", ada(), Some(input)));
    assert_eq!(reply.status, 400);
    assert_eq!(reply.body.error, Some("Name cannot be empty".to_string()));
}

#[test]
fn update_with_bad_email_is_400_and_writes_nothing() {
    let input =
        UpdateUserRequest { name: Some("Grace".to_string()), email: Some("nope".to_string()) };
    let reply = update_refusal(update_user_after_body("u-1", ada(), Some(input.clone())));
    assert_eq!(reply.status, 400);
    assert_eq!(reply.body.data, None);
    assert_eq!(reply.body.error, Some("Invalid email".to_string()));
    assert_eq!(apply_update(ada(), &input), Err(Rejection::InvalidEmail));
}

#[test]
fn update_replaces_only_the_given_fields() {
    let only_name = UpdateUserRequest { name: Some(" Grace ".to_string()), email: None };
    let after = apply_update(ada(), &only_name).unwrap();
    assert_eq!(after.name, "Grace");
    assert_eq!(after.email, "ada@example.com");
    assert_eq!(after.id, "u-1");
    assert_eq!(after.created_at, "2024-01-01T00:00:00+00:00");

    let only_email = UpdateUserRequest { name: None, email: Some("G@Hopper.MIL".to_string()) };
    let after = apply_update(ada(), &only_email).unwrap();
    assert_eq!(after.name, "Ada");
    assert_eq!(after.email, "g@hopper.mil");

    let nothing = UpdateUserRequest { name: None, email: None };
    assert_eq!(apply_update(ada(), &nothing), Ok(ada()));
}

#[test]
fn update_writes_under_the_id_of_the_request() {
    let input = UpdateUserRequest {
        name: Some("Grace".to_string()),
        email: Some("Grace@Navy.mil".to_string()),
    };
    match update_user_after_body("route-id", ada(), Some(input)) {
        UpdateUserStep::Persist { user, query } => {
            assert_eq!(user.name, "Grace");
            assert_eq!(user.email, "grace@navy.mil");
            assert_eq!(user.id, "u-1");
            assert_eq!(
                query,
                Query::UpdateUser {
                    name: "Grace".to_string(),
                    email: "grace@navy.mil".to_string(),
                    id: "route-id".to_string(),
                }
            );
        }
        other => panic!("expected a write, got {:?}", other),
    }
}

#[test]
fn updated_user_goes_out_with_200() {
    let reply = update_user_after_write(ada());
    assert_eq!(reply.status, 200);
    assert!(reply.body.success);
    assert_eq!(reply.body.data, Some(ada()));
}

#[test]
fn delete_runs_the_delete_statement() {
    assert_eq!(handle_delete_user("u-1"), Query::DeleteUser { id: "u-1".to_string() });
}

#[test]
fn delete_of_missing_user_is_404() {
    let reply = delete_user_reply(Some(0));
    assert_eq!(reply.status, 404);
    assert!(!reply.body.success);
    assert_eq!(reply.body.data, None);
    assert_eq!(reply.body.error, Some("User not found".to_string()));
    assert_eq!(delete_user_reply(None).status, 404);
}

#[test]
fn delete_of_existing_user_is_200_without_data() {
    let reply = delete_user_reply(Some(1));
    assert_eq!(reply.status, 200);
    assert!(reply.body.success);
    assert_eq!(reply.body.data, None);
    assert_eq!(reply.body.error, None);
    assert_eq!(delete_user_reply(Some(2)).status, 200);
}
