use http2sql::credential::{hash, verify};
use http2sql::errors::{ApiError, Invalid};
use http2sql::registry::{
    check_login, check_registration, check_tag_name, is_blank_name, is_valid_email, translate_fault, StorageFault,
};
use http2sql::response::{confirm, LOGGED_IN};
use http2sql::store::Store;

const NOW: i64 = 1_700_000_000;

#[test]
fn second_registration_conflicts() {
    let mut store = Store::new();
    let first = store.register("a@b.c", "secret", NOW);
    let second = store.register("a@b.c", "other secret", NOW + 1);
    assert!(first.is_ok());
    assert_eq!(second.unwrap_err(), ApiError::Conflict);
    assert_eq!(store.user_count(), 1);
}

#[test]
fn emails_are_case_sensitive() {
    let mut store = Store::new();
    assert!(store.register("a@b.c", "secret", NOW).is_ok());
    let other = store.register("A@b.c", "secret", NOW).unwrap();
    assert_eq!(other.id, 2);
}

#[test]
fn hash_then_verify() {
    let digest = hash("Randompassword1!").unwrap();
    assert!(digest.starts_with("$argon2"));
    assert_ne!(digest, "Randompassword1!");
    assert!(verify("Randompassword1!", &digest));
    let other = hash("Randompassword2!").unwrap();
    assert!(!verify("Randompassword1!", &other));
    assert!(!verify("Randompassword1!", "not a digest"));
}

#[test]
fn salts_differ() {
    let a = hash("same").unwrap();
    let b = hash("same").unwrap();
    assert_ne!(a, b);
    assert!(verify("same", &a) && verify("same", &b));
}

#[test]
fn login_failures_look_the_same() {
    let mut store = Store::new();
    store.register("john.doe@gmail.com", "Randompassword1!", NOW).unwrap();
    let unknown = confirm(store.login("nobody@gmail.com", "Randompassword1!"), LOGGED_IN);
    let wrong = confirm(store.login("john.doe@gmail.com", "wrong"), LOGGED_IN);
    assert_eq!(unknown.status_code(), wrong.status_code());
    assert_eq!(unknown.message(), wrong.message());
    assert_eq!(wrong.status_code(), 401);
    assert_eq!(wrong.message(), "Unauthorized");
    assert_eq!(format!("{:?}", unknown), format!("{:?}", wrong));
}

#[test]
fn user_without_tags_is_listed() {
    let mut store = Store::new();
    store.register("a@b.c", "x", NOW).unwrap();
    store.register("d@e.f", "y", NOW + 1).unwrap();
    store.create_tag(2, "only", NOW + 2).unwrap();
    let users = store.list_with_tags();
    assert_eq!(users.len(), 2);
    assert_eq!(users[0].user.email, "a@b.c");
    assert!(users[0].tags.is_empty());
    assert_eq!(users[1].tags.len(), 1);
}

#[test]
fn empty_store_lists_nothing() {
    assert!(Store::new().list_with_tags().is_empty());
}

#[test]
fn tag_for_missing_user() {
    let mut store = Store::new();
    store.register("a@b.c", "x", NOW).unwrap();
    assert_eq!(store.create_tag(999999, "tag", NOW).unwrap_err(), ApiError::NotFound);
    assert_eq!(store.create_tag(0, "tag", NOW).unwrap_err(), ApiError::NotFound);
    assert_eq!(store.create_tag(-1, "tag", NOW).unwrap_err(), ApiError::NotFound);
    assert_eq!(store.tag_count(), 0);
}

#[test]
fn blank_tag_names_refused() {
    let mut store = Store::new();
    store.register("a@b.c", "x", NOW).unwrap();
    assert_eq!(store.create_tag(1, "", NOW).unwrap_err(), ApiError::Validation(Invalid::TagName));
    assert_eq!(store.create_tag(1, " \t\n", NOW).unwrap_err(), ApiError::Validation(Invalid::TagName));
    assert_eq!(store.tag_count(), 0);
    let tag = store.create_tag(1, " padded ", NOW).unwrap();
    assert_eq!(tag.name, " padded ");
}

#[test]
fn registration_validation() {
    let mut store = Store::new();
    assert_eq!(store.register("no-at-sign", "x", NOW).unwrap_err(), ApiError::Validation(Invalid::Email));
    assert_eq!(store.register("", "x", NOW).unwrap_err(), ApiError::Validation(Invalid::Email));
    assert_eq!(store.register("a@b.c", "", NOW).unwrap_err(), ApiError::Validation(Invalid::Password));
    assert_eq!(store.user_count(), 0);
    assert_eq!(check_registration("a@b", "p"), Ok(()));
    assert_eq!(check_registration("@b", "p"), Err(ApiError::Validation(Invalid::Email)));
}

#[test]
fn email_shapes() {
    assert!(is_valid_email("a@b"));
    assert!(is_valid_email("luke.warm@hotmail.fr"));
    assert!(!is_valid_email("@hotmail.fr"));
    assert!(!is_valid_email("luke@"));
    assert!(!is_valid_email("@"));
    assert!(!is_valid_email("plain"));
    assert!(is_valid_email("é@ü"));
}

#[test]
fn blank_names() {
    assert!(is_blank_name(""));
    assert!(is_blank_name("  \r\n"));
    assert!(!is_blank_name(" a "));
    assert_eq!(check_tag_name("tag1"), Ok(()));
    assert_eq!(check_tag_name(" "), Err(ApiError::Validation(Invalid::TagName)));
}

#[test]
fn login_decision() {
    let digest = hash("pw").unwrap();
    assert_eq!(check_login(&Some(digest.clone()), "pw"), Ok(()));
    assert_eq!(check_login(&Some(digest), "px"), Err(ApiError::Unauthorized));
    assert_eq!(check_login(&None, "pw"), Err(ApiError::Unauthorized));
}

#[test]
fn storage_faults_translate() {
    assert_eq!(translate_fault(StorageFault::UniqueViolation), ApiError::Conflict);
    assert_eq!(translate_fault(StorageFault::ForeignKeyViolation), ApiError::NotFound);
    assert_eq!(translate_fault(StorageFault::Unreachable), ApiError::Unavailable);
    assert_eq!(translate_fault(StorageFault::Other), ApiError::Unavailable);
}

#[test]
fn error_statuses_and_messages() {
    assert_eq!(ApiError::Validation(Invalid::Email).status_code(), 400);
    assert_eq!(ApiError::Conflict.status_code(), 409);
    assert_eq!(ApiError::Unauthorized.status_code(), 401);
    assert_eq!(ApiError::NotFound.status_code(), 404);
    assert_eq!(ApiError::Unavailable.status_code(), 503);
    assert_eq!(ApiError::Conflict.message(), "Resource already exists");
    assert_eq!(ApiError::NotFound.message(), "Resource not found");
    assert!(ApiError::Conflict.is_client_error());
    assert!(!ApiError::Unavailable.is_client_error());
}
