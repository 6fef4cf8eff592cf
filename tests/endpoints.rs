use http2sql::errors::ApiError;
use http2sql::response::{confirm, ApiResponse, LOGGED_IN, REGISTERED, TAG_CREATED, USERS_LISTED};
use http2sql::store::Store;

const NOW: i64 = 1_700_000_000;

// Three users, the first owning two tags and the second one.
fn seeded() -> Store {
    let mut store = Store::new();
    store.register("john.doe@gmail.com", "Randompassword1!", NOW).unwrap();
    store.register("jane.doe@gmail.com", "Randompassword3!", NOW + 1).unwrap();
    store.register("alan.smithee@yahoo.com", "Randompassword4!", NOW + 2).unwrap();
    store.create_tag(1, "tag1", NOW + 3).unwrap();
    store.create_tag(1, "tag2", NOW + 4).unwrap();
    store.create_tag(2, "tag3", NOW + 5).unwrap();
    store
}

#[test]
fn register_user_success() {
    let mut store = seeded();
    let email = "luke.warm@hotmail.fr".to_string();
    let password = "Randompassword2!".to_string();
    let response = ApiResponse::from_result(store.register(&email, &password, NOW + 10), REGISTERED);

    assert!(response.is_success());
    assert_eq!(response.status_code(), 200);
    let data = match &response {
        ApiResponse::Success { data: Some(u), .. } => u.clone(),
        _ => panic!("expected a user"),
    };
    assert_eq!(data.id, 4);
    assert_eq!(data.email, "luke.warm@hotmail.fr");
    assert!(data.created_at > 0);
    assert_eq!(response.message(), "User registered successfully".to_string());
}

#[test]
fn login_user_success() {
    let store = seeded();
    let response = confirm(store.login("john.doe@gmail.com", "Randompassword1!"), LOGGED_IN);

    assert!(response.is_success());
    assert_eq!(response.message(), "Correct password");
}

#[test]
fn read_users() {
    let store = seeded();
    let response = ApiResponse::data(store.list_with_tags(), USERS_LISTED);

    assert!(response.is_success());
    assert_eq!(response.message(), "User metadata retrieved successfully");

    let users = match response {
        ApiResponse::Success { data: Some(users), .. } => users,
        _ => panic!("expected users"),
    };
    assert_eq!(users.len(), 3);
    assert_eq!(users[0].user.email, "john.doe@gmail.com");
    assert!(users[0].user.created_at > 0);
    assert_eq!(users[0].tags.len(), 2);
    assert_eq!(users[0].tags[0].name, "tag1");
    assert!(users[0].tags[0].created_at > 0);
    assert_eq!(users[0].tags[1].name, "tag2");
    assert!(users[0].tags[1].created_at > 0);
}

#[test]
fn create_tags() {
    let mut store = seeded();
    let response = ApiResponse::from_result(store.create_tag(1, "tag4", NOW + 20), TAG_CREATED);

    assert!(response.is_success());
    assert_eq!(response.message(), "Tag created successfully");

    let data = match response {
        ApiResponse::Success { data: Some(t), .. } => t,
        _ => panic!("expected a tag"),
    };
    assert_eq!(data.id, 4);
    assert_eq!(data.user_id, 1);
    assert_eq!(data.name, "tag4");
    assert!(data.created_at > 0);
}

#[test]
fn end_to_end_register_login_tag() {
    let mut store = seeded();
    let user = store.register("luke.warm@hotmail.fr", "Randompassword2!", NOW + 30).unwrap();
    assert_eq!(user.id, 4);
    assert!(user.created_at > 0);
    assert_eq!(store.login("luke.warm@hotmail.fr", "Randompassword2!"), Ok(()));
    let tag = store.create_tag(user.id, "tag4", NOW + 31).unwrap();
    assert_eq!(tag.user_id, user.id);
    assert_eq!(tag.name, "tag4");
    assert_eq!(tag.created_at, NOW + 31);
    let users = store.list_with_tags();
    assert_eq!(users[3].tags.len(), 1);
    assert_eq!(users[3].tags[0].id, 4);
}

#[test]
fn unknown_error_envelope() {
    let response: ApiResponse<()> = ApiResponse::from_result(Err(ApiError::Unavailable), REGISTERED);
    assert!(!response.is_success());
    assert_eq!(response.status_code(), 503);
    assert_eq!(response.message(), "Service unavailable");
    let plain: ApiResponse<()> = ApiResponse::message_only(LOGGED_IN);
    assert_eq!(plain.status_code(), 200);
}
