use auth_core::models::{Client, ClientType, Organization, Timestamp, User, UserStatus};
use auth_core::persist::{
    atomic_write, clients_file, is_user_file_name, org_dir, organizations_file, persist_user,
    registry_file, user_file, Document, FileAction, PersistOutcome,
};
use auth_core::registry::{ClaimDefinition, ClaimsRegistry};
use auth_core::storage::{AdminStorage, StorageError};

fn at(seconds: i64) -> Timestamp {
    Timestamp { seconds, nanos: 0, offset_seconds: 0 }
}

fn user(id: &str, email: &str, org: &str) -> User {
    User {
        id: id.to_string(),
        email: email.to_string(),
        password_hash: "hash".to_string(),
        first_name: "First".to_string(),
        last_name: "Last".to_string(),
        status: UserStatus::Active,
        verified: false,
        authenticated: None,
        admin: vec![],
        org: org.to_string(),
        claims: vec![],
        mfa_secret: None,
        created_at: at(100),
        updated_at: at(100),
    }
}

fn client(id: &str, name: &str) -> Client {
    Client {
        client_id: id.to_string(),
        client_secret_hash: None,
        name: name.to_string(),
        client_type: ClientType::Public,
        redirect_uris: vec![],
        allowed_scopes: vec![],
        require_pkce: false,
        grant_types: vec![],
        created_at: at(50),
    }
}

fn organization(id: &str, name: &str) -> Organization {
    Organization {
        id: id.to_string(),
        name: name.to_string(),
        description: String::new(),
        metadata: vec![],
        created_at: at(60),
    }
}

fn definition(description: &str) -> ClaimDefinition {
    ClaimDefinition {
        claim_type: "string".to_string(),
        items: None,
        description: description.to_string(),
        default_allowed: true,
        required: None,
        sensitive: None,
        admin_only: None,
    }
}

fn empty_store() -> AdminStorage {
    AdminStorage::new("/data", "/run/auth.pid", ClaimsRegistry::new(), at(1_000))
}

fn describe(action: &FileAction) -> String {
    match action {
        FileAction::CreateDirAll { path } => format!("mkdir {}", path),
        FileAction::WriteFile { path, document } => {
            let what = match document {
                Document::User(u) => format!("user {}", u.id),
                Document::Clients(list) => format!(
                    "clients [{}]",
                    list.iter().map(|c| format!("{}={}", c.client_id, c.name)).collect::<Vec<_>>().join(",")
                ),
                Document::Organizations(list) => format!(
                    "orgs [{}]",
                    list.iter().map(|o| format!("{}={}", o.id, o.name)).collect::<Vec<_>>().join(",")
                ),
                Document::Registry(registry) => {
                    let mut keys: Vec<String> = registry
                        .claims
                        .iter()
                        .map(|e| format!("{}={}", e.key, e.value.description))
                        .collect();
                    keys.sort();
                    format!("registry [{}]", keys.join(","))
                }
            };
            format!("write {} <- {}", path, what)
        }
        FileAction::Rename { from, to } => format!("rename {} -> {}", from, to),
        FileAction::RemoveFile { path } => format!("remove {}", path),
    }
}

fn script(plan: &[FileAction]) -> Vec<String> {
    plan.iter().map(describe).collect()
}

#[test]
fn paths_are_laid_out_under_the_data_directory() {
    assert_eq!(org_dir("/data", "acme"), "/data/users/acme");
    assert_eq!(user_file("/data", "acme", "u1"), "/data/users/acme/u1.json");
    assert_eq!(clients_file("/data"), "/data/clients.json");
    assert_eq!(organizations_file("/data"), "/data/orgs.json");
    assert_eq!(registry_file("/data"), "/data/claims.json");
    assert_eq!(user_file("", "", ""), "/users//.json");
}

#[test]
fn atomic_write_goes_through_a_temporary_sibling() {
    let plan = atomic_write("/data/claims.json".to_string(), Document::Registry(ClaimsRegistry::new()));
    assert_eq!(
        script(&plan),
        vec![
            "write /data/claims.json.tmp <- registry []",
            "rename /data/claims.json.tmp -> /data/claims.json",
        ]
    );
}

#[test]
fn persisting_a_user_makes_its_directory_first() {
    let plan = persist_user("/data", &user("u1", "a@example.com", "acme"));
    assert_eq!(
        script(&plan),
        vec![
            "mkdir /data/users/acme",
            "write /data/users/acme/u1.json.tmp <- user u1",
            "rename /data/users/acme/u1.json.tmp -> /data/users/acme/u1.json",
        ]
    );
}

#[test]
fn plan_create_user_refuses_what_create_user_refuses() {
    let mut store = empty_store();
    let first = user("u1", "a@example.com", "acme");
    let plan = store.plan_create_user(&first).unwrap();
    assert_eq!(
        script(&plan),
        vec![
            "mkdir /data/users/acme",
            "write /data/users/acme/u1.json.tmp <- user u1",
            "rename /data/users/acme/u1.json.tmp -> /data/users/acme/u1.json",
        ]
    );
    store.create_user(first, PersistOutcome::Persisted, at(2_000)).unwrap();
    assert_eq!(
        store.plan_create_user(&user("u1", "b@example.com", "acme")).err(),
        Some(StorageError::AlreadyExists)
    );
    assert_eq!(
        store.plan_create_user(&user("u2", "a@example.com", "acme")).err(),
        Some(StorageError::AlreadyExists)
    );
    assert!(store.plan_create_user(&user("u2", "b@example.com", "acme")).is_ok());
}

#[test]
fn changing_the_organization_moves_the_user_file() {
    let mut store = empty_store();
    store
        .create_user(user("u1", "a@example.com", "acme"), PersistOutcome::Persisted, at(2_000))
        .unwrap();
    let moved = user("u1", "a@example.com", "globex");
    let plan = store.plan_update_user("u1", &moved).unwrap();
    assert_eq!(
        script(&plan),
        vec![
            "mkdir /data/users/globex",
            "write /data/users/globex/u1.json.tmp <- user u1",
            "rename /data/users/globex/u1.json.tmp -> /data/users/globex/u1.json",
            "remove /data/users/acme/u1.json",
        ]
    );
    store.update_user("u1", moved, PersistOutcome::Persisted, at(3_000)).unwrap();
    assert_eq!(store.get_user("u1").map(|u| u.org.clone()), Some("globex".to_string()));
    assert_eq!(script(&store.plan_delete_user("u1")), vec!["remove /data/users/globex/u1.json"]);
}

#[test]
fn an_update_within_the_organization_rewrites_in_place() {
    let mut store = empty_store();
    store
        .create_user(user("u1", "a@example.com", "acme"), PersistOutcome::Persisted, at(2_000))
        .unwrap();
    let plan = store.plan_update_user("u1", &user("ignored", "new@example.com", "acme")).unwrap();
    assert_eq!(
        script(&plan),
        vec![
            "mkdir /data/users/acme",
            "write /data/users/acme/u1.json.tmp <- user u1",
            "rename /data/users/acme/u1.json.tmp -> /data/users/acme/u1.json",
        ]
    );
}

#[test]
fn plan_update_user_refuses_what_update_user_refuses() {
    let mut store = empty_store();
    store
        .create_user(user("u1", "a@example.com", "acme"), PersistOutcome::Persisted, at(2_000))
        .unwrap();
    store
        .create_user(user("u2", "b@example.com", "acme"), PersistOutcome::Persisted, at(2_000))
        .unwrap();
    assert_eq!(
        store.plan_update_user("nobody", &user("nobody", "n@example.com", "acme")).err(),
        Some(StorageError::NotFound)
    );
    assert_eq!(
        store.plan_update_user("u1", &user("u1", "b@example.com", "acme")).err(),
        Some(StorageError::AlreadyExists)
    );
}

#[test]
fn deleting_a_missing_user_needs_no_step() {
    let store = empty_store();
    assert!(store.plan_delete_user("nobody").is_empty());
}

#[test]
fn client_changes_rewrite_the_whole_collection() {
    let mut store = empty_store();
    let plan = store.plan_add_client(&client("web", "Web")).unwrap();
    assert_eq!(
        script(&plan),
        vec![
            "write /data/clients.json.tmp <- clients [web=Web]",
            "rename /data/clients.json.tmp -> /data/clients.json",
        ]
    );
    store.add_client(client("web", "Web"), PersistOutcome::Persisted, at(2_000)).unwrap();
    store.add_client(client("cli", "CLI"), PersistOutcome::Persisted, at(2_001)).unwrap();
    store.add_client(client("app", "App"), PersistOutcome::Persisted, at(2_002)).unwrap();

    assert_eq!(store.plan_add_client(&client("cli", "x")).err(), Some(StorageError::AlreadyExists));
    assert_eq!(
        script(&store.plan_add_client(&client("new", "New")).unwrap())[0],
        "write /data/clients.json.tmp <- clients [web=Web,cli=CLI,app=App,new=New]"
    );
    assert_eq!(
        script(&store.plan_update_client("cli", &client("other", "Console")).unwrap())[0],
        "write /data/clients.json.tmp <- clients [web=Web,cli=Console,app=App]"
    );
    assert_eq!(
        store.plan_update_client("none", &client("none", "x")).err(),
        Some(StorageError::NotFound)
    );
    assert_eq!(
        script(&store.plan_delete_client("cli")),
        vec![
            "write /data/clients.json.tmp <- clients [web=Web,app=App]",
            "rename /data/clients.json.tmp -> /data/clients.json",
        ]
    );
    assert!(store.plan_delete_client("none").is_empty());
}

#[test]
fn the_written_client_collection_is_the_one_in_memory_afterwards() {
    let mut store = empty_store();
    store.add_client(client("web", "Web"), PersistOutcome::Persisted, at(2_000)).unwrap();
    store.add_client(client("cli", "CLI"), PersistOutcome::Persisted, at(2_001)).unwrap();

    let plan = store.plan_update_client("web", &client("web", "Web Two")).unwrap();
    store.update_client("web", client("web", "Web Two"), PersistOutcome::Persisted, at(3_000)).unwrap();
    let in_memory: Vec<String> =
        store.get_all_clients().iter().map(|c| format!("{}={}", c.client_id, c.name)).collect();
    assert_eq!(script(&plan)[0], format!("write /data/clients.json.tmp <- clients [{}]", in_memory.join(",")));

    let plan = store.plan_delete_client("web");
    store.delete_client("web", PersistOutcome::Persisted, at(4_000)).unwrap();
    let in_memory: Vec<String> =
        store.get_all_clients().iter().map(|c| format!("{}={}", c.client_id, c.name)).collect();
    assert_eq!(script(&plan)[0], format!("write /data/clients.json.tmp <- clients [{}]", in_memory.join(",")));
}

#[test]
fn organization_changes_rewrite_the_whole_collection() {
    let mut store = empty_store();
    store.add_organization(organization("acme", "Acme"), PersistOutcome::Persisted, at(2_000)).unwrap();
    store
        .add_organization(organization("globex", "Globex"), PersistOutcome::Persisted, at(2_001))
        .unwrap();
    assert_eq!(
        script(&store.plan_add_organization(&organization("initech", "Initech")).unwrap()),
        vec![
            "write /data/orgs.json.tmp <- orgs [acme=Acme,globex=Globex,initech=Initech]",
            "rename /data/orgs.json.tmp -> /data/orgs.json",
        ]
    );
    assert_eq!(
        store.plan_add_organization(&organization("acme", "x")).err(),
        Some(StorageError::AlreadyExists)
    );
    assert_eq!(
        script(&store.plan_update_organization("globex", &organization("g", "Globex Inc")).unwrap())[0],
        "write /data/orgs.json.tmp <- orgs [acme=Acme,globex=Globex Inc]"
    );
    assert_eq!(
        store.plan_update_organization("none", &organization("none", "x")).err(),
        Some(StorageError::NotFound)
    );
    assert_eq!(
        script(&store.plan_delete_organization("acme"))[0],
        "write /data/orgs.json.tmp <- orgs [globex=Globex]"
    );
    assert!(store.plan_delete_organization("none").is_empty());
}

#[test]
fn registry_changes_rewrite_the_whole_document() {
    let mut store = empty_store();
    store
        .add_claim("dept".to_string(), definition("department"), PersistOutcome::Persisted, at(2_000))
        .unwrap();

    let mut replacement = ClaimsRegistry::new();
    replacement.insert("tier".to_string(), definition("tier"));
    assert_eq!(
        script(&store.plan_update_claims_registry(&replacement)),
        vec![
            "write /data/claims.json.tmp <- registry [tier=tier]",
            "rename /data/claims.json.tmp -> /data/claims.json",
        ]
    );
    assert_eq!(
        script(&store.plan_add_claim("tier", &definition("tier")))[0],
        "write /data/claims.json.tmp <- registry [dept=department,tier=tier]"
    );
    assert_eq!(
        script(&store.plan_add_claim("dept", &definition("division")))[0],
        "write /data/claims.json.tmp <- registry [dept=division]"
    );
    assert_eq!(
        script(&store.plan_update_claim("dept", &definition("unit")).unwrap())[0],
        "write /data/claims.json.tmp <- registry [dept=unit]"
    );
    assert_eq!(
        store.plan_update_claim("tier", &definition("tier")).err(),
        Some(StorageError::NotFound)
    );
    assert_eq!(
        script(&store.plan_delete_claim("dept").unwrap())[0],
        "write /data/claims.json.tmp <- registry []"
    );
    assert_eq!(store.plan_delete_claim("tier").err(), Some(StorageError::NotFound));
    assert!(store.get_claims().contains_key("dept"));
}

#[test]
fn user_files_end_in_json_and_have_a_stem() {
    assert!(is_user_file_name("user-1.json"));
    assert!(is_user_file_name("a.json"));
    assert!(is_user_file_name("\u{e9}.json"));
    assert!(!is_user_file_name(".json"));
    assert!(!is_user_file_name("json"));
    assert!(!is_user_file_name(""));
    assert!(!is_user_file_name("user-1.json.tmp"));
    assert!(!is_user_file_name("user-1.JSON"));
    assert!(!is_user_file_name("user-1.jso"));
}

#[test]
fn the_whole_store_is_written_registry_first() {
    let mut store = empty_store();
    assert_eq!(
        script(&store.plan_persist()),
        vec![
            "write /data/claims.json.tmp <- registry []",
            "rename /data/claims.json.tmp -> /data/claims.json",
            "write /data/clients.json.tmp <- clients []",
            "rename /data/clients.json.tmp -> /data/clients.json",
            "write /data/orgs.json.tmp <- orgs []",
            "rename /data/orgs.json.tmp -> /data/orgs.json",
        ]
    );
    store
        .add_claim("dept".to_string(), definition("department"), PersistOutcome::Persisted, at(2_000))
        .unwrap();
    store
        .create_user(user("u1", "a@example.com", "acme"), PersistOutcome::Persisted, at(2_000))
        .unwrap();
    store
        .create_user(user("u2", "b@example.com", "globex"), PersistOutcome::Persisted, at(2_000))
        .unwrap();
    store.add_client(client("", "Nameless"), PersistOutcome::Persisted, at(2_000)).unwrap();
    store.add_client(client("web", "Web"), PersistOutcome::Persisted, at(2_000)).unwrap();
    store.add_organization(organization("acme", "Acme"), PersistOutcome::Persisted, at(2_000)).unwrap();
    assert_eq!(
        script(&store.plan_persist()),
        vec![
            "write /data/claims.json.tmp <- registry [dept=department]",
            "rename /data/claims.json.tmp -> /data/claims.json",
            "mkdir /data/users/acme",
            "write /data/users/acme/u1.json.tmp <- user u1",
            "rename /data/users/acme/u1.json.tmp -> /data/users/acme/u1.json",
            "mkdir /data/users/globex",
            "write /data/users/globex/u2.json.tmp <- user u2",
            "rename /data/users/globex/u2.json.tmp -> /data/users/globex/u2.json",
            "write /data/clients.json.tmp <- clients [=Nameless,web=Web]",
            "rename /data/clients.json.tmp -> /data/clients.json",
            "write /data/orgs.json.tmp <- orgs [acme=Acme]",
            "rename /data/orgs.json.tmp -> /data/orgs.json",
        ]
    );
}
