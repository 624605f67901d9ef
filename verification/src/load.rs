//! Building a store from what was read from disk.
//!
//! The driver reads and parses the files; this module decides what the
//! result means. Without a registry there is no store: claim visibility
//! cannot be decided, so the failure is fatal. Any other document that could
//! not be read or parsed costs its records, is reported as a warning, and the
//! load goes on.

use crate::claims::{
    claim_visible, lemma_filter_fixes_valid_user, scopes_admit, validate_user_claims,
    with_filtered_claims,
};
use crate::models::{Client, ClientView, Organization, OrganizationView, Timestamp, User, UserView};
use crate::persist::{
    temp_path, user_file_path, user_write_steps, DocumentView, FileActionView,
};
use crate::registry::{ClaimDefinitionView, ClaimsRegistry};
use crate::storage::{AdminStorage, StorageView};
use crate::text::str_eq;
use vstd::prelude::*;

verus! {

/// The outcome of reading one collection: the records, or the reason why
/// they are not to be had together with what to use in their place.
#[derive(Debug)]
pub enum LoadResult<T> {
    Success(T),
    CorruptData { error: String, fallback: T },
}

impl<T> LoadResult<T> {
    /// Turns the outcome of reading and parsing into a load result, with
    /// `fallback` standing in for records that could not be had.
    pub fn from_outcome(outcome: Result<T, String>, fallback: T) -> (result: LoadResult<T>)
        ensures
            result == match outcome {
                Ok(value) => LoadResult::Success(value),
                Err(error) => LoadResult::CorruptData { error, fallback },
            },
    {
        match outcome {
            Ok(value) => LoadResult::Success(value),
            Err(error) => LoadResult::CorruptData { error, fallback },
        }
    }

    /// The records to go on with.
    pub open spec fn value(self) -> T {
        match self {
            LoadResult::Success(value) => value,
            LoadResult::CorruptData { fallback, .. } => fallback,
        }
    }

    /// The reason why the records are a fallback, if they are.
    pub open spec fn error(self) -> Option<String> {
        match self {
            LoadResult::Success(_) => None,
            LoadResult::CorruptData { error, .. } => Some(error),
        }
    }

    /// Splits the result into the records to go on with and the reason why
    /// they are a fallback, if they are.
    pub fn into_parts(self) -> (parts: (T, Option<String>))
        ensures
            parts.0 == self.value(),
            parts.1 == self.error(),
    {
        match self {
            LoadResult::Success(value) => (value, None),
            LoadResult::CorruptData { error, fallback } => (fallback, Some(error)),
        }
    }
}

/// One user file found under `users/<org_dir>/`, and what parsing it gave.
#[derive(Debug)]
pub struct UserFile {
    /// The name of the directory the file lies in.
    pub org_dir: String,
    pub parsed: Result<User, String>,
}

pub struct UserFileView {
    pub org_dir: Seq<char>,
    pub parsed: Result<UserView, Seq<char>>,
}

impl View for UserFile {
    type V = UserFileView;

    open spec fn view(&self) -> UserFileView {
        UserFileView {
            org_dir: self.org_dir@,
            parsed: match self.parsed {
                Ok(user) => Ok(user@),
                Err(error) => Err(error@),
            },
        }
    }
}

/// Everything the driver read under the data directory.
#[derive(Debug)]
pub struct DataFiles {
    pub registry: Result<ClaimsRegistry, String>,
    pub users: Vec<UserFile>,
    pub clients: Result<Vec<Client>, String>,
    pub organizations: Result<Vec<Organization>, String>,
}

/// Something that went wrong during a load without stopping it.
#[derive(Debug)]
pub enum LoadWarning {
    /// A user file could not be read or parsed; the user is not loaded.
    UserFileRejected { org_dir: String, error: String },
    /// A user lies in the directory of another organization than its own.
    UserOrgMismatch { user_id: String, org_dir: String },
    /// A user's id or email is taken by a user read before it; it is not
    /// loaded.
    UserSkipped { user_id: String },
    /// The client document could not be read or parsed; no client is loaded.
    ClientsUnavailable { error: String },
    /// A client's id is taken by one read before it; it is not loaded.
    ClientSkipped { client_id: String },
    /// The organization document could not be read or parsed; none is loaded.
    OrganizationsUnavailable { error: String },
    /// An organization's id is taken by one read before it; it is not loaded.
    OrganizationSkipped { id: String },
}

pub enum LoadWarningView {
    UserFileRejected { org_dir: Seq<char>, error: Seq<char> },
    UserOrgMismatch { user_id: Seq<char>, org_dir: Seq<char> },
    UserSkipped { user_id: Seq<char> },
    ClientsUnavailable { error: Seq<char> },
    ClientSkipped { client_id: Seq<char> },
    OrganizationsUnavailable { error: Seq<char> },
    OrganizationSkipped { id: Seq<char> },
}

impl View for LoadWarning {
    type V = LoadWarningView;

    open spec fn view(&self) -> LoadWarningView {
        match self {
            LoadWarning::UserFileRejected { org_dir, error } => LoadWarningView::UserFileRejected {
                org_dir: org_dir@,
                error: error@,
            },
            LoadWarning::UserOrgMismatch { user_id, org_dir } => LoadWarningView::UserOrgMismatch {
                user_id: user_id@,
                org_dir: org_dir@,
            },
            LoadWarning::UserSkipped { user_id } => LoadWarningView::UserSkipped {
                user_id: user_id@,
            },
            LoadWarning::ClientsUnavailable { error } => LoadWarningView::ClientsUnavailable {
                error: error@,
            },
            LoadWarning::ClientSkipped { client_id } => LoadWarningView::ClientSkipped {
                client_id: client_id@,
            },
            LoadWarning::OrganizationsUnavailable {
                error,
            } => LoadWarningView::OrganizationsUnavailable { error: error@ },
            LoadWarning::OrganizationSkipped { id } => LoadWarningView::OrganizationSkipped {
                id: id@,
            },
        }
    }
}

/// The views of a list of warnings.
pub open spec fn warning_views(warnings: Seq<LoadWarning>) -> Seq<LoadWarningView> {
    warnings.map_values(|w: LoadWarning| w@)
}

/// Why a load gave no store.
#[derive(Debug)]
pub enum LoadError {
    /// The registry document is missing or cannot be parsed.
    RegistryUnavailable { error: String },
}

/// A store that was read in, and what went wrong on the way.
pub struct Loaded {
    pub storage: AdminStorage,
    pub warnings: Vec<LoadWarning>,
}

/// The views of a list of user files.
pub open spec fn user_file_views(files: Seq<UserFile>) -> Seq<UserFileView> {
    files.map_values(|f: UserFile| f@)
}

/// The views of a list of clients.
pub open spec fn client_record_views(clients: Seq<Client>) -> Seq<ClientView> {
    clients.map_values(|c: Client| c@)
}

/// The views of a list of organizations.
pub open spec fn organization_record_views(orgs: Seq<Organization>) -> Seq<OrganizationView> {
    orgs.map_values(|o: Organization| o@)
}

/// The store after the user files were taken in, in order. Each parsed user
/// is stripped of the claims it may not carry, then joins the store unless
/// its id or email is taken.
pub open spec fn with_user_files(start: StorageView, files: Seq<UserFileView>) -> StorageView
    decreases files.len(),
{
    if files.len() == 0 {
        start
    } else {
        let before = with_user_files(start, files.drop_last());
        match files.last().parsed {
            Ok(user) => before.with_user_loaded(with_filtered_claims(user, start.registry)),
            Err(_) => before,
        }
    }
}

/// The warnings that taking in the user files gives, in order.
pub open spec fn user_file_warnings(start: StorageView, files: Seq<UserFileView>) -> Seq<
    LoadWarningView,
>
    decreases files.len(),
{
    if files.len() == 0 {
        Seq::empty()
    } else {
        let before = with_user_files(start, files.drop_last());
        let earlier = user_file_warnings(start, files.drop_last());
        let file = files.last();
        match file.parsed {
            Ok(user) => earlier + (if user.org != file.org_dir {
                seq![LoadWarningView::UserOrgMismatch { user_id: user.id, org_dir: file.org_dir }]
            } else {
                Seq::empty()
            }) + (if before.users.dom().contains(user.id) || before.email_index.dom().contains(
                user.email,
            ) {
                seq![LoadWarningView::UserSkipped { user_id: user.id }]
            } else {
                Seq::empty()
            }),
            Err(error) => earlier.push(
                LoadWarningView::UserFileRejected { org_dir: file.org_dir, error },
            ),
        }
    }
}

/// The store after the clients were taken in, in order.
pub open spec fn with_clients(start: StorageView, clients: Seq<ClientView>) -> StorageView
    decreases clients.len(),
{
    if clients.len() == 0 {
        start
    } else {
        with_clients(start, clients.drop_last()).with_client_loaded(clients.last())
    }
}

/// The warnings that taking in the clients gives, in order.
pub open spec fn client_warnings(start: StorageView, clients: Seq<ClientView>) -> Seq<
    LoadWarningView,
>
    decreases clients.len(),
{
    if clients.len() == 0 {
        Seq::empty()
    } else {
        let before = with_clients(start, clients.drop_last());
        let earlier = client_warnings(start, clients.drop_last());
        if before.clients.dom().contains(clients.last().client_id) {
            earlier.push(LoadWarningView::ClientSkipped { client_id: clients.last().client_id })
        } else {
            earlier
        }
    }
}

/// The store after the organizations were taken in, in order.
pub open spec fn with_organizations(start: StorageView, orgs: Seq<OrganizationView>) -> StorageView
    decreases orgs.len(),
{
    if orgs.len() == 0 {
        start
    } else {
        with_organizations(start, orgs.drop_last()).with_organization_loaded(orgs.last())
    }
}

/// The warnings that taking in the organizations gives, in order.
pub open spec fn organization_warnings(start: StorageView, orgs: Seq<OrganizationView>) -> Seq<
    LoadWarningView,
>
    decreases orgs.len(),
{
    if orgs.len() == 0 {
        Seq::empty()
    } else {
        let before = with_organizations(start, orgs.drop_last());
        let earlier = organization_warnings(start, orgs.drop_last());
        if before.organizations.dom().contains(orgs.last().id) {
            earlier.push(LoadWarningView::OrganizationSkipped { id: orgs.last().id })
        } else {
            earlier
        }
    }
}

/// The clients that a load goes on with.
pub open spec fn clients_read(files: DataFiles) -> Seq<ClientView> {
    match files.clients {
        Ok(clients) => client_record_views(clients@),
        Err(_) => Seq::empty(),
    }
}

/// The organizations that a load goes on with.
pub open spec fn organizations_read(files: DataFiles) -> Seq<OrganizationView> {
    match files.organizations {
        Ok(orgs) => organization_record_views(orgs@),
        Err(_) => Seq::empty(),
    }
}

/// The store that a load gives: the registry, then the users, then the
/// clients, then the organizations.
pub open spec fn loaded_store(
    data_dir: Seq<char>,
    auth_pid_file: Seq<char>,
    registry: Map<Seq<char>, ClaimDefinitionView>,
    files: DataFiles,
    now: Timestamp,
) -> StorageView {
    let start = StorageView::empty(data_dir, auth_pid_file, registry, now);
    let users = with_user_files(start, user_file_views(files.users@));
    let clients = with_clients(users, clients_read(files));
    with_organizations(clients, organizations_read(files))
}

/// The warnings that a load gives, in the order in which they arise.
pub open spec fn load_warnings(
    data_dir: Seq<char>,
    auth_pid_file: Seq<char>,
    registry: Map<Seq<char>, ClaimDefinitionView>,
    files: DataFiles,
    now: Timestamp,
) -> Seq<LoadWarningView> {
    let start = StorageView::empty(data_dir, auth_pid_file, registry, now);
    let users = with_user_files(start, user_file_views(files.users@));
    let clients = with_clients(users, clients_read(files));
    user_file_warnings(start, user_file_views(files.users@)) + (match files.clients {
        Ok(_) => Seq::empty(),
        Err(error) => seq![LoadWarningView::ClientsUnavailable { error: error@ }],
    }) + client_warnings(users, clients_read(files)) + (match files.organizations {
        Ok(_) => Seq::empty(),
        Err(error) => seq![LoadWarningView::OrganizationsUnavailable { error: error@ }],
    }) + organization_warnings(clients, organizations_read(files))
}

/// Every custom claim of every user of `store` is one that the registry of
/// `store` defines and lets its holder carry.
pub open spec fn users_carry_admitted_claims(store: StorageView) -> bool {
    forall|id: Seq<char>, key: Seq<char>|
        #![trigger store.users[id].claims.dom().contains(key)]
        store.users.dom().contains(id) && store.users[id].claims.dom().contains(key)
            ==> store.registry.dom().contains(key) && scopes_admit(
            store.users[id].admin,
            store.registry[key],
        )
}

/// A user that is read in leaves the store well-formed.
pub proof fn lemma_user_loaded_keeps_wf(store: StorageView, user: UserView)
    requires
        store.wf(),
    ensures
        store.with_user_loaded(user).wf(),
{
    if !(store.users.dom().contains(user.id) || store.email_index.dom().contains(user.email)) {
        let after = store.with_user_loaded(user);
        assert forall|id: Seq<char>|
            #![trigger after.users.dom().contains(id)]
            #![trigger after.user_ids.contains(id)]
            after.users.dom().contains(id) <==> after.user_ids.contains(id) by {
            if store.user_ids.contains(id) {
                let i = choose|i: int| 0 <= i < store.user_ids.len() && store.user_ids[i] == id;
                assert(after.user_ids[i] == id);
            }
            if id == user.id {
                assert(after.user_ids[store.user_ids.len() as int] == id);
            }
        }
    }
}

/// Taking in user files leaves the registry alone, keeps the invariant of
/// the store, and lets no claim in that the registry does not allow.
pub proof fn lemma_user_files_enforce_registry(start: StorageView, files: Seq<UserFileView>)
    requires
        start.wf(),
        users_carry_admitted_claims(start),
    ensures
        with_user_files(start, files).wf(),
        with_user_files(start, files).registry == start.registry,
        users_carry_admitted_claims(with_user_files(start, files)),
    decreases files.len(),
{
    if files.len() > 0 {
        lemma_user_files_enforce_registry(start, files.drop_last());
        let before = with_user_files(start, files.drop_last());
        match files.last().parsed {
            Ok(user) => {
                lemma_user_loaded_keeps_wf(before, with_filtered_claims(user, start.registry));
            },
            Err(_) => {},
        }
    }
}

/// Taking in clients changes neither the users nor the registry, and keeps
/// the invariant of the store.
pub proof fn lemma_clients_leave_users(start: StorageView, clients: Seq<ClientView>)
    requires
        start.wf(),
    ensures
        with_clients(start, clients).wf(),
        with_clients(start, clients).users == start.users,
        with_clients(start, clients).user_ids == start.user_ids,
        with_clients(start, clients).email_index == start.email_index,
        with_clients(start, clients).registry == start.registry,
    decreases clients.len(),
{
    if clients.len() > 0 {
        lemma_clients_leave_users(start, clients.drop_last());
        let before = with_clients(start, clients.drop_last());
        let client = clients.last();
        if !before.clients.dom().contains(client.client_id) {
            let after = before.with_client_loaded(client);
            assert forall|id: Seq<char>|
                #![trigger after.clients.dom().contains(id)]
                #![trigger after.client_ids.contains(id)]
                after.clients.dom().contains(id) <==> after.client_ids.contains(id) by {
                if before.client_ids.contains(id) {
                    let i = choose|i: int|
                        0 <= i < before.client_ids.len() && before.client_ids[i] == id;
                    assert(after.client_ids[i] == id);
                }
                if id == client.client_id {
                    assert(after.client_ids[before.client_ids.len() as int] == id);
                }
            }
        }
    }
}

/// Taking in organizations changes neither the users nor the registry, and
/// keeps the invariant of the store.
pub proof fn lemma_organizations_leave_users(start: StorageView, orgs: Seq<OrganizationView>)
    requires
        start.wf(),
    ensures
        with_organizations(start, orgs).wf(),
        with_organizations(start, orgs).users == start.users,
        with_organizations(start, orgs).user_ids == start.user_ids,
        with_organizations(start, orgs).email_index == start.email_index,
        with_organizations(start, orgs).registry == start.registry,
    decreases orgs.len(),
{
    if orgs.len() > 0 {
        lemma_organizations_leave_users(start, orgs.drop_last());
        let before = with_organizations(start, orgs.drop_last());
        let org = orgs.last();
        if !before.organizations.dom().contains(org.id) {
            let after = before.with_organization_loaded(org);
            assert forall|id: Seq<char>|
                #![trigger after.organizations.dom().contains(id)]
                #![trigger after.organization_ids.contains(id)]
                after.organizations.dom().contains(id) <==> after.organization_ids.contains(
                    id,
                ) by {
                if before.organization_ids.contains(id) {
                    let i = choose|i: int|
                        0 <= i < before.organization_ids.len() && before.organization_ids[i]
                            == id;
                    assert(after.organization_ids[i] == id);
                }
                if id == org.id {
                    assert(after.organization_ids[before.organization_ids.len() as int] == id);
                }
            }
        }
    }
}

/// A store that was just loaded holds no claim that its registry does not
/// define: whatever the files said, a claim key unknown to the registry is
/// absent from every user.
pub proof fn lemma_loaded_users_carry_known_claims(
    data_dir: Seq<char>,
    auth_pid_file: Seq<char>,
    registry: Map<Seq<char>, ClaimDefinitionView>,
    files: DataFiles,
    now: Timestamp,
    id: Seq<char>,
    key: Seq<char>,
)
    requires
        !registry.dom().contains(key),
        loaded_store(data_dir, auth_pid_file, registry, files, now).users.dom().contains(id),
    ensures
        ({
            let loaded = loaded_store(data_dir, auth_pid_file, registry, files, now);
            !loaded.users[id].claims.dom().contains(key)
        }),
{
    let start = StorageView::empty(data_dir, auth_pid_file, registry, now);
    let users = with_user_files(start, user_file_views(files.users@));
    let clients = with_clients(users, clients_read(files));
    lemma_user_files_enforce_registry(start, user_file_views(files.users@));
    lemma_clients_leave_users(users, clients_read(files));
    lemma_organizations_leave_users(clients, organizations_read(files));
}

/// The ids and emails that user files bring into a store are those of the
/// users that the files hold.
pub proof fn lemma_loaded_users_come_from_files(start: StorageView, files: Seq<UserFileView>)
    ensures
        forall|id: Seq<char>| #[trigger]
            with_user_files(start, files).users.dom().contains(id) ==> start.users.dom().contains(
                id,
            ) || exists|i: int|
                0 <= i < files.len() && (#[trigger] files[i]).parsed is Ok
                    && files[i].parsed->Ok_0.id == id,
        forall|email: Seq<char>| #[trigger]
            with_user_files(start, files).email_index.dom().contains(email)
                ==> start.email_index.dom().contains(email) || exists|i: int|
                0 <= i < files.len() && (#[trigger] files[i]).parsed is Ok
                    && files[i].parsed->Ok_0.email == email,
    decreases files.len(),
{
    if files.len() > 0 {
        let front = files.drop_last();
        lemma_loaded_users_come_from_files(start, front);
        let before = with_user_files(start, front);
    }
}

/// What was persisted is what is loaded. A user file that parses, and whose
/// id and email no earlier file claims, gives a user of the loaded store:
/// the parsed user, stripped of the claims it may not carry. A user all of
/// whose claims may be carried comes back exactly as it was written.
pub proof fn lemma_loaded_user_is_the_parsed_user(
    start: StorageView,
    files: Seq<UserFileView>,
    at: int,
)
    requires
        start.users.dom() =~= Set::<Seq<char>>::empty(),
        start.email_index.dom() =~= Set::<Seq<char>>::empty(),
        0 <= at < files.len(),
        files[at].parsed is Ok,
        forall|i: int|
            0 <= i < at && (#[trigger] files[i]).parsed is Ok ==> files[i].parsed->Ok_0.id
                != files[at].parsed->Ok_0.id && files[i].parsed->Ok_0.email
                != files[at].parsed->Ok_0.email,
    ensures
        ({
            let user = files[at].parsed->Ok_0;
            let loaded = with_user_files(start, files);
            &&& loaded.users.dom().contains(user.id)
            &&& loaded.users[user.id] == with_filtered_claims(user, start.registry)
            &&& (forall|key: Seq<char>| #[trigger]
                user.claims.dom().contains(key) ==> start.registry.dom().contains(key)
                    && claim_visible(user, start.registry[key])) ==> loaded.users[user.id] == user
        }),
    decreases files.len(),
{
    let user = files[at].parsed->Ok_0;
    let front = files.drop_last();
    if at == files.len() - 1 {
        lemma_loaded_users_come_from_files(start, front);
    } else {
        lemma_loaded_user_is_the_parsed_user(start, front, at);
    }
    if forall|key: Seq<char>| #[trigger]
        user.claims.dom().contains(key) ==> start.registry.dom().contains(key) && claim_visible(
            user,
            start.registry[key],
        ) {
        lemma_filter_fixes_valid_user(user, start.registry);
    }
}

/// A valid user makes the round trip. The plan that persists a user writes
/// that user, whole, to the file under its organization; a load that finds
/// that file, and in it the user that was written, gives a store that holds
/// the user exactly as it was, without a warning.
pub proof fn lemma_persisted_user_is_reloaded(
    data_dir: Seq<char>,
    auth_pid_file: Seq<char>,
    registry: Map<Seq<char>, ClaimDefinitionView>,
    now: Timestamp,
    user: UserView,
)
    requires
        forall|key: Seq<char>| #[trigger]
            user.claims.dom().contains(key) ==> registry.dom().contains(key) && claim_visible(
                user,
                registry[key],
            ),
    ensures
        ({
            let start = StorageView::empty(data_dir, auth_pid_file, registry, now);
            let steps = user_write_steps(data_dir, user);
            let path = user_file_path(data_dir, user.org, user.id);
            let found = seq![UserFileView { org_dir: user.org, parsed: Ok(user) }];
            let loaded = with_user_files(start, found);
            &&& steps[1] == (FileActionView::WriteFile {
                path: temp_path(path),
                document: DocumentView::User(user),
            })
            &&& steps[2] == (FileActionView::Rename { from: temp_path(path), to: path })
            &&& loaded.users.dom().contains(user.id)
            &&& loaded.users[user.id] == user
            &&& loaded.user_ids == seq![user.id]
            &&& user_file_warnings(start, found) == Seq::<LoadWarningView>::empty()
        }),
{
    let start = StorageView::empty(data_dir, auth_pid_file, registry, now);
    let found = seq![UserFileView { org_dir: user.org, parsed: Ok(user) }];
    lemma_loaded_user_is_the_parsed_user(start, found, 0);
    assert(with_user_files(start, found.drop_last()) == start);
    assert(user_file_warnings(start, found.drop_last()) =~= Seq::<LoadWarningView>::empty());
}

impl AdminStorage {
    /// Builds the store from what was read under `data_dir`. Fails exactly
    /// when the registry could not be had; everything else degrades into
    /// warnings.
    pub fn load(data_dir: &str, auth_pid_file: &str, files: DataFiles, now: Timestamp) -> (result:
        Result<Loaded, LoadError>)
        ensures
            match files.registry {
                Err(error) => result is Err && result->Err_0 == (LoadError::RegistryUnavailable {
                    error,
                }),
                Ok(registry) => result is Ok && result->Ok_0.storage.wf()
                    && result->Ok_0.storage@ == loaded_store(
                    data_dir@,
                    auth_pid_file@,
                    registry@,
                    files,
                    now,
                ) && warning_views(result->Ok_0.warnings@) == load_warnings(
                    data_dir@,
                    auth_pid_file@,
                    registry@,
                    files,
                    now,
                ),
            },
    {
        let DataFiles { registry, users, clients, organizations } = files;
        let registry = match registry {
            Err(error) => {
                return Err(LoadError::RegistryUnavailable { error });
            },
            Ok(registry) => registry,
        };
        let mut storage = AdminStorage::new(data_dir, auth_pid_file, registry, now);
        let mut warnings: Vec<LoadWarning> = Vec::new();
        let ghost start = storage@;

        let ghost user_files = user_file_views(users@);
        let mut i: usize = 0;
        while i < users.len()
            invariant
                i <= users.len(),
                user_files == user_file_views(users@),
                storage.wf(),
                storage@.registry == start.registry,
                storage@ == with_user_files(start, user_files.take(i as int)),
                warning_views(warnings@) == user_file_warnings(start, user_files.take(i as int)),
            decreases users.len() - i,
        {
            let file = &users[i];
            proof {
                assert(user_files.take(i + 1).drop_last() =~= user_files.take(i as int));
            }
            match &file.parsed {
                Ok(parsed) => {
                    let mut user = parsed.clone();
                    validate_user_claims(&mut user, storage.get_claims());
                    if !str_eq(user.org.as_str(), file.org_dir.as_str()) {
                        let warning = LoadWarning::UserOrgMismatch {
                            user_id: user.id.clone(),
                            org_dir: file.org_dir.clone(),
                        };
                        assert(warning_views(warnings@.push(warning)) =~= warning_views(
                            warnings@,
                        ).push(warning@));
                        warnings.push(warning);
                    }
                    let user_id = user.id.clone();
                    let joined = storage.load_user(user);
                    if !joined {
                        let warning = LoadWarning::UserSkipped { user_id };
                        assert(warning_views(warnings@.push(warning)) =~= warning_views(
                            warnings@,
                        ).push(warning@));
                        warnings.push(warning);
                    }
                    assert(warning_views(warnings@) =~= user_file_warnings(
                        start,
                        user_files.take(i + 1),
                    ));
                },
                Err(error) => {
                    let warning = LoadWarning::UserFileRejected {
                        org_dir: file.org_dir.clone(),
                        error: error.clone(),
                    };
                    warnings.push(warning);
                },
            }
            i += 1;
        }
        assert(user_files.take(i as int) =~= user_files);
        let ghost with_users = storage@;

        let (client_records, client_error) = LoadResult::from_outcome(
            clients,
            Vec::new(),
        ).into_parts();
        match client_error {
            Some(error) => {
                let warning = LoadWarning::ClientsUnavailable { error };
                assert(warning_views(warnings@.push(warning)) =~= warning_views(warnings@).push(
                    warning@,
                ));
                warnings.push(warning);
            },
            None => {},
        }
        let ghost client_views = client_record_views(client_records@);
        let ghost before_clients = warning_views(warnings@);
        let mut j: usize = 0;
        assert(warning_views(warnings@) =~= before_clients + client_warnings(
            with_users,
            client_views.take(0),
        ));
        while j < client_records.len()
            invariant
                j <= client_records.len(),
                client_views == client_record_views(client_records@),
                storage.wf(),
                storage@ == with_clients(with_users, client_views.take(j as int)),
                warning_views(warnings@) == before_clients + client_warnings(
                    with_users,
                    client_views.take(j as int),
                ),
            decreases client_records.len() - j,
        {
            proof {
                assert(client_views.take(j + 1).drop_last() =~= client_views.take(j as int));
            }
            let client = client_records[j].clone();
            let client_id = client.client_id.clone();
            let joined = storage.load_client(client);
            if !joined {
                let warning = LoadWarning::ClientSkipped { client_id };
                assert(warning_views(warnings@.push(warning)) =~= warning_views(warnings@).push(
                    warning@,
                ));
                warnings.push(warning);
            }
            assert(warning_views(warnings@) =~= before_clients + client_warnings(
                with_users,
                client_views.take(j + 1),
            ));
            j += 1;
        }
        assert(client_views.take(j as int) =~= client_views);
        let ghost with_all_clients = storage@;

        let (org_records, org_error) = LoadResult::from_outcome(
            organizations,
            Vec::new(),
        ).into_parts();
        match org_error {
            Some(error) => {
                let warning = LoadWarning::OrganizationsUnavailable { error };
                assert(warning_views(warnings@.push(warning)) =~= warning_views(warnings@).push(
                    warning@,
                ));
                warnings.push(warning);
            },
            None => {},
        }
        let ghost org_views = organization_record_views(org_records@);
        let ghost before_orgs = warning_views(warnings@);
        let mut k: usize = 0;
        assert(warning_views(warnings@) =~= before_orgs + organization_warnings(
            with_all_clients,
            org_views.take(0),
        ));
        while k < org_records.len()
            invariant
                k <= org_records.len(),
                org_views == organization_record_views(org_records@),
                storage.wf(),
                storage@ == with_organizations(with_all_clients, org_views.take(k as int)),
                warning_views(warnings@) == before_orgs + organization_warnings(
                    with_all_clients,
                    org_views.take(k as int),
                ),
            decreases org_records.len() - k,
        {
            proof {
                assert(org_views.take(k + 1).drop_last() =~= org_views.take(k as int));
            }
            let organization = org_records[k].clone();
            let id = organization.id.clone();
            let joined = storage.load_organization(organization);
            if !joined {
                let warning = LoadWarning::OrganizationSkipped { id };
                assert(warning_views(warnings@.push(warning)) =~= warning_views(warnings@).push(
                    warning@,
                ));
                warnings.push(warning);
            }
            assert(warning_views(warnings@) =~= before_orgs + organization_warnings(
                with_all_clients,
                org_views.take(k + 1),
            ));
            k += 1;
        }
        assert(org_views.take(k as int) =~= org_views);
        assert(warning_views(warnings@) =~= load_warnings(
            data_dir@,
            auth_pid_file@,
            registry@,
            files,
            now,
        ));
        Ok(Loaded { storage, warnings })
    }
}

} // verus!
