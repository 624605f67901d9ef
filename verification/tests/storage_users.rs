use auth_core::entries::Entry;
use auth_core::models::{ClaimItem, ClaimValue, Timestamp, User, UserStatus};
use auth_core::persist::PersistOutcome;
use auth_core::registry::ClaimsRegistry;
use auth_core::storage::{AdminStorage, StorageError};

fn at(seconds: i64) -> Timestamp {
    Timestamp { seconds, nanos: 0, offset_seconds: 0 }
}

fn user(id: &str, email: &str, org: &str) -> User {
    User {
        id: id.to_string(),
        email: email.to_string(),
        password_hash: "hash".to_string(),
        first_name: "First".to_string(),
        last_name: "Last".to_string(),
        status: UserStatus::Active,
        verified: false,
        authenticated: None,
        admin: vec![],
        org: org.to_string(),
        claims: vec![],
        mfa_secret: None,
        created_at: at(100),
        updated_at: at(100),
    }
}

fn named(id: &str, email: &str, first: &str, last: &str, org: &str) -> User {
    let mut u = user(id, email, org);
    u.first_name = first.to_string();
    u.last_name = last.to_string();
    u
}

fn empty_store() -> AdminStorage {
    AdminStorage::new("/data", "/run/auth.pid", ClaimsRegistry::new(), at(1_000))
}

fn ids(users: &[&User]) -> Vec<String> {
    users.iter().map(|u| u.id.clone()).collect()
}

fn store_with_three() -> AdminStorage {
    let mut store = empty_store();
    store
        .create_user(
            named("u1", "ada@example.com", "Ada", "Lovelace", "acme"),
            PersistOutcome::Persisted,
            at(1_001),
        )
        .unwrap();
    store
        .create_user(
            named("u2", "grace@example.com", "Grace", "Hopper", "globex"),
            PersistOutcome::Persisted,
            at(1_002),
        )
        .unwrap();
    store
        .create_user(
            named("u3", "alan@example.com", "Alan", "Turing", "acme"),
            PersistOutcome::Persisted,
            at(1_003),
        )
        .unwrap();
    store
}

#[test]
fn new_store_is_empty_and_fresh() {
    let store = empty_store();
    assert_eq!(store.users_count(), 0);
    assert_eq!(store.clients_count(), 0);
    assert_eq!(store.organizations_count(), 0);
    assert!(store.get_all_users().is_empty());
    assert!(!store.is_auth_stale());
    assert_eq!(store.data_dir(), "/data");
    assert_eq!(store.auth_pid_file(), "/run/auth.pid");
    assert_eq!(store.sync_state().last_auth_reload, at(1_000));
    assert_eq!(store.sync_state().last_data_update, at(1_000));
}

#[test]
fn create_user_inserts_indexes_and_marks_the_change() {
    let mut store = empty_store();
    let created =
        store.create_user(user("u1", "a@example.com", "acme"), PersistOutcome::Persisted, at(2_000));
    let created = created.unwrap();
    assert_eq!(created.id, "u1");
    assert_eq!(created.email, "a@example.com");
    assert_eq!(store.users_count(), 1);
    assert_eq!(store.get_user("u1").map(|u| u.email.clone()), Some("a@example.com".to_string()));
    assert_eq!(store.get_user_by_email("a@example.com").map(|u| u.id.clone()), Some("u1".to_string()));
    assert!(store.get_user("u2").is_none());
    assert!(store.get_user_by_email("b@example.com").is_none());
    assert_eq!(store.sync_state().last_data_update, at(2_000));
    assert_eq!(store.sync_state().last_auth_reload, at(1_000));
    assert!(store.is_auth_stale());
}

#[test]
fn create_user_with_taken_email_is_refused_and_changes_nothing() {
    let mut store = empty_store();
    store
        .create_user(user("u1", "a@example.com", "acme"), PersistOutcome::Persisted, at(2_000))
        .unwrap();
    let again =
        store.create_user(user("u2", "a@example.com", "globex"), PersistOutcome::Persisted, at(3_000));
    assert_eq!(again.err(), Some(StorageError::AlreadyExists));
    assert_eq!(store.users_count(), 1);
    assert!(store.get_user("u2").is_none());
    assert_eq!(store.get_user_by_email("a@example.com").map(|u| u.id.clone()), Some("u1".to_string()));
    assert_eq!(store.get_user("u1").map(|u| u.org.clone()), Some("acme".to_string()));
    assert_eq!(store.sync_state().last_data_update, at(2_000));
}

#[test]
fn create_user_with_taken_id_is_refused_and_changes_nothing() {
    let mut store = empty_store();
    store
        .create_user(user("u1", "a@example.com", "acme"), PersistOutcome::Persisted, at(2_000))
        .unwrap();
    let again =
        store.create_user(user("u1", "b@example.com", "globex"), PersistOutcome::Persisted, at(3_000));
    assert_eq!(again.err(), Some(StorageError::AlreadyExists));
    assert_eq!(store.users_count(), 1);
    assert!(store.get_user_by_email("b@example.com").is_none());
    assert_eq!(store.get_user("u1").map(|u| u.email.clone()), Some("a@example.com".to_string()));
    assert_eq!(store.sync_state().last_data_update, at(2_000));
}

#[test]
fn taken_email_wins_over_a_failed_plan() {
    let mut store = empty_store();
    store
        .create_user(user("u1", "a@example.com", "acme"), PersistOutcome::Persisted, at(2_000))
        .unwrap();
    let again =
        store.create_user(user("u2", "a@example.com", "acme"), PersistOutcome::Failed, at(3_000));
    assert_eq!(again.err(), Some(StorageError::AlreadyExists));
}

#[test]
fn create_user_whose_plan_failed_changes_nothing() {
    let mut store = empty_store();
    let failed =
        store.create_user(user("u1", "a@example.com", "acme"), PersistOutcome::Failed, at(2_000));
    assert_eq!(failed.err(), Some(StorageError::IoFailure));
    assert_eq!(store.users_count(), 0);
    assert!(store.get_user("u1").is_none());
    assert!(store.get_user_by_email("a@example.com").is_none());
    assert_eq!(store.sync_state().last_data_update, at(1_000));
    assert!(!store.is_auth_stale());
}

#[test]
fn update_user_replaces_the_record_and_moves_the_email() {
    let mut store = store_with_three();
    let mut changed = named("u1", "countess@example.com", "Augusta", "King", "globex");
    changed.admin = vec!["all".to_string()];
    let updated = store.update_user("u1", changed, PersistOutcome::Persisted, at(5_000)).unwrap();
    assert_eq!(updated.id, "u1");
    assert_eq!(updated.email, "countess@example.com");

    let stored = store.get_user("u1").unwrap();
    assert_eq!(stored.first_name, "Augusta");
    assert_eq!(stored.org, "globex");
    assert_eq!(stored.admin, vec!["all".to_string()]);
    assert!(store.get_user_by_email("ada@example.com").is_none());
    assert_eq!(
        store.get_user_by_email("countess@example.com").map(|u| u.id.clone()),
        Some("u1".to_string())
    );
    assert_eq!(store.users_count(), 3);
    assert_eq!(ids(&store.get_all_users()), vec!["u1", "u2", "u3"]);
    assert_eq!(store.sync_state().last_data_update, at(5_000));
}

#[test]
fn update_user_keeps_the_identifier() {
    let mut store = store_with_three();
    let renamed = named("someone-else", "ada@example.com", "Ada", "King", "acme");
    let updated = store.update_user("u1", renamed, PersistOutcome::Persisted, at(5_000)).unwrap();
    assert_eq!(updated.id, "u1");
    assert_eq!(store.get_user("u1").map(|u| u.last_name.clone()), Some("King".to_string()));
    assert!(store.get_user("someone-else").is_none());
    assert_eq!(store.get_user_by_email("ada@example.com").map(|u| u.id.clone()), Some("u1".to_string()));
}

#[test]
fn update_user_that_is_missing_is_not_found() {
    let mut store = store_with_three();
    let result = store.update_user(
        "nobody",
        user("nobody", "nobody@example.com", "acme"),
        PersistOutcome::Persisted,
        at(5_000),
    );
    assert_eq!(result.err(), Some(StorageError::NotFound));
    assert_eq!(store.users_count(), 3);
    assert!(store.get_user_by_email("nobody@example.com").is_none());
    assert_eq!(store.sync_state().last_data_update, at(1_003));
}

#[test]
fn update_user_to_the_email_of_another_user_is_refused() {
    let mut store = store_with_three();
    let result = store.update_user(
        "u1",
        named("u1", "grace@example.com", "Ada", "Lovelace", "acme"),
        PersistOutcome::Persisted,
        at(5_000),
    );
    assert_eq!(result.err(), Some(StorageError::AlreadyExists));
    assert_eq!(store.get_user("u1").map(|u| u.email.clone()), Some("ada@example.com".to_string()));
    assert_eq!(store.get_user_by_email("grace@example.com").map(|u| u.id.clone()), Some("u2".to_string()));
    assert_eq!(store.sync_state().last_data_update, at(1_003));
}

#[test]
fn update_user_whose_plan_failed_changes_nothing() {
    let mut store = store_with_three();
    let result = store.update_user(
        "u1",
        named("u1", "new@example.com", "Ada", "Lovelace", "globex"),
        PersistOutcome::Failed,
        at(5_000),
    );
    assert_eq!(result.err(), Some(StorageError::IoFailure));
    assert_eq!(store.get_user("u1").map(|u| u.org.clone()), Some("acme".to_string()));
    assert!(store.get_user_by_email("new@example.com").is_none());
    assert_eq!(store.sync_state().last_data_update, at(1_003));
}

#[test]
fn delete_user_removes_record_and_index_entry() {
    let mut store = store_with_three();
    assert!(store.delete_user("u2", PersistOutcome::Persisted, at(6_000)).is_ok());
    assert_eq!(store.users_count(), 2);
    assert!(store.get_user("u2").is_none());
    assert!(store.get_user_by_email("grace@example.com").is_none());
    assert_eq!(ids(&store.get_all_users()), vec!["u1", "u3"]);
    assert_eq!(store.sync_state().last_data_update, at(6_000));

    let back =
        store.create_user(user("u9", "grace@example.com", "acme"), PersistOutcome::Persisted, at(6_001));
    assert!(back.is_ok());
    assert_eq!(ids(&store.get_all_users()), vec!["u1", "u3", "u9"]);
}

#[test]
fn delete_user_that_is_missing_is_no_error() {
    let mut store = store_with_three();
    assert!(store.delete_user("nobody", PersistOutcome::Persisted, at(6_000)).is_ok());
    assert!(store.delete_user("nobody", PersistOutcome::Failed, at(6_000)).is_ok());
    assert_eq!(store.users_count(), 3);
    assert_eq!(store.sync_state().last_data_update, at(1_003));
}

#[test]
fn delete_user_whose_plan_failed_changes_nothing() {
    let mut store = store_with_three();
    let result = store.delete_user("u2", PersistOutcome::Failed, at(6_000));
    assert_eq!(result.err(), Some(StorageError::IoFailure));
    assert_eq!(store.users_count(), 3);
    assert!(store.get_user("u2").is_some());
    assert_eq!(store.get_user_by_email("grace@example.com").map(|u| u.id.clone()), Some("u2".to_string()));
}

#[test]
fn users_are_listed_in_the_order_they_came() {
    let store = store_with_three();
    assert_eq!(ids(&store.get_all_users()), vec!["u1", "u2", "u3"]);
}

#[test]
fn users_by_org() {
    let store = store_with_three();
    assert_eq!(ids(&store.get_users_by_org("acme")), vec!["u1", "u3"]);
    assert_eq!(ids(&store.get_users_by_org("globex")), vec!["u2"]);
    assert!(store.get_users_by_org("initech").is_empty());
    assert!(store.get_users_by_org("ACME").is_empty());
}

#[test]
fn search_is_a_case_insensitive_substring_match() {
    let store = store_with_three();
    assert_eq!(ids(&store.search_users("LOVELACE")), vec!["u1"]);
    assert_eq!(ids(&store.search_users("a")), vec!["u1", "u2", "u3"]);
    assert_eq!(ids(&store.search_users("hop")), vec!["u2"]);
    assert_eq!(ids(&store.search_users("alan@")), vec!["u3"]);
    assert_eq!(ids(&store.search_users("")), vec!["u1", "u2", "u3"]);
    assert!(store.search_users("zebra").is_empty());
    assert!(store.search_users("acme").is_empty());
}

#[test]
fn users_by_claim_match_texts_and_list_items() {
    let mut store = empty_store();
    let mut a = user("u1", "a@example.com", "acme");
    a.claims = vec![Entry { key: "dept".to_string(), value: ClaimValue::Text("eng".to_string()) }];
    let mut b = user("u2", "b@example.com", "acme");
    b.claims = vec![Entry {
        key: "dept".to_string(),
        value: ClaimValue::List(vec![
            ClaimItem::Text("ops".to_string()),
            ClaimItem::Text("eng".to_string()),
        ]),
    }];
    let mut c = user("u3", "c@example.com", "acme");
    c.claims = vec![Entry { key: "dept".to_string(), value: ClaimValue::Json("\"eng\"".to_string()) }];
    let d = user("u4", "d@example.com", "acme");
    for u in [a, b, c, d] {
        store.create_user(u, PersistOutcome::Persisted, at(2_000)).unwrap();
    }
    assert_eq!(ids(&store.find_users_by_claim("dept", "eng")), vec!["u1", "u2"]);
    assert_eq!(ids(&store.find_users_by_claim("dept", "ops")), vec!["u2"]);
    assert!(store.find_users_by_claim("dept", "hr").is_empty());
    assert!(store.find_users_by_claim("team", "eng").is_empty());
}

#[test]
fn users_by_role_include_the_all_scope() {
    let mut store = empty_store();
    let mut a = user("u1", "a@example.com", "acme");
    a.admin = vec!["acme".to_string()];
    let mut b = user("u2", "b@example.com", "acme");
    b.admin = vec!["all".to_string()];
    let c = user("u3", "c@example.com", "acme");
    for u in [a, b, c] {
        store.create_user(u, PersistOutcome::Persisted, at(2_000)).unwrap();
    }
    assert_eq!(ids(&store.find_users_by_role("acme")), vec!["u1", "u2"]);
    assert_eq!(ids(&store.find_users_by_role("globex")), vec!["u2"]);
}

#[test]
fn staleness_compares_last_change_with_last_reload() {
    let mut store = empty_store();
    assert!(!store.is_auth_stale());
    store
        .create_user(user("u1", "a@example.com", "acme"), PersistOutcome::Persisted, at(2_000))
        .unwrap();
    assert!(store.is_auth_stale());
}
