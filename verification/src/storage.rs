//! The record store: users, clients, organizations and the claims registry,
//! held in memory and kept in step with their files.
//!
//! A change is made in two moves. The store first says what the change means
//! on disk (`plan_*`). The driver carries that plan out and then calls the
//! change itself with the outcome. Only a change whose plan was carried out
//! reaches memory: a rejected or failed change leaves the store as it was.

use crate::models::{Client, ClientView, Organization, OrganizationView, Timestamp, User, UserView};
use crate::persist::{
    atomic_write, atomic_write_steps, clients_file, clients_file_path, files_after,
    org_dir_path, organizations_file, organizations_file_path, persist_user, plan_view,
    registry_file, registry_file_path, temp_path, user_file, user_file_path, user_write_steps,
    Document, DocumentView, FileAction, FileActionView, Files, PersistOutcome,
};
use crate::registry::{ClaimDefinition, ClaimDefinitionView, ClaimsRegistry};
use crate::seqs::{
    lemma_filter_map_next, lemma_filter_map_skip_one, lemma_filter_map_total, lemma_filter_next,
};
use crate::table::Table;
use crate::text::{lowercase_of, str_eq, to_lowercase};
use vstd::hash_map::StringHashMap;
use vstd::prelude::*;

verus! {

/// Why a change was not made.
#[derive(Clone, Copy, Debug, PartialEq, Eq, Structural)]
pub enum StorageError {
    /// No record has the identifier.
    NotFound,
    /// The identifier, or the email, is taken.
    AlreadyExists,
    /// The plan could not be carried out on disk.
    IoFailure,
}

/// When the data last changed, and when the token service was last told to
/// read it again.
#[derive(Clone, Copy, Debug, PartialEq, Eq, Structural)]
pub struct DataSyncState {
    pub last_auth_reload: Timestamp,
    pub last_data_update: Timestamp,
}

pub struct AdminStorage {
    users: Table<User>,
    organizations: Table<Organization>,
    clients: Table<Client>,
    claims_registry: ClaimsRegistry,
    /// email -> user id
    email_index: StringHashMap<String>,
    data_dir: String,
    auth_pid_file: String,
    sync_state: DataSyncState,
}

/// The store as mathematics.
#[verifier::ext_equal]
pub struct StorageView {
    pub users: Map<Seq<char>, UserView>,
    /// User ids, in the order in which the users came.
    pub user_ids: Seq<Seq<char>>,
    /// email -> user id
    pub email_index: Map<Seq<char>, Seq<char>>,
    pub organizations: Map<Seq<char>, OrganizationView>,
    pub organization_ids: Seq<Seq<char>>,
    pub clients: Map<Seq<char>, ClientView>,
    pub client_ids: Seq<Seq<char>>,
    pub registry: Map<Seq<char>, ClaimDefinitionView>,
    pub data_dir: Seq<char>,
    pub auth_pid_file: Seq<char>,
    pub sync_state: DataSyncState,
}

/// `ids` lists the keys of `records`, each once.
pub open spec fn lists_keys<R>(ids: Seq<Seq<char>>, records: Map<Seq<char>, R>) -> bool {
    &&& ids.no_duplicates()
    &&& forall|id: Seq<char>|
        #![trigger records.dom().contains(id)]
        #![trigger ids.contains(id)]
        records.dom().contains(id) <==> ids.contains(id)
}

impl StorageView {
    /// The invariant of the store.
    pub open spec fn wf(self) -> bool {
        &&& lists_keys(self.user_ids, self.users)
        &&& lists_keys(self.client_ids, self.clients)
        &&& lists_keys(self.organization_ids, self.organizations)
        &&& forall|id: Seq<char>| #[trigger]
            self.users.dom().contains(id) ==> self.users[id].id == id
        &&& forall|id: Seq<char>| #[trigger]
            self.clients.dom().contains(id) ==> self.clients[id].client_id == id
        &&& forall|id: Seq<char>| #[trigger]
            self.organizations.dom().contains(id) ==> self.organizations[id].id == id
        &&& self.email_index_agrees()
    }

    /// The email index is exact: every user is found under its email, and
    /// every email of the index leads to a user with that email. So no two
    /// users share an email.
    pub open spec fn email_index_agrees(self) -> bool {
        &&& forall|id: Seq<char>| #[trigger]
            self.users.dom().contains(id) ==> self.email_index.dom().contains(self.users[id].email)
                && self.email_index[self.users[id].email] == id
        &&& forall|email: Seq<char>| #[trigger]
            self.email_index.dom().contains(email) ==> self.users.dom().contains(
                self.email_index[email],
            ) && self.users[self.email_index[email]].email == email
    }

    /// The users, in the order in which they came.
    pub open spec fn user_list(self) -> Seq<UserView> {
        Seq::new(self.user_ids.len(), |i: int| self.users[self.user_ids[i]])
    }

    /// The clients, in the order in which they came.
    pub open spec fn client_list(self) -> Seq<ClientView> {
        Seq::new(self.client_ids.len(), |i: int| self.clients[self.client_ids[i]])
    }

    /// The organizations, in the order in which they came.
    pub open spec fn organization_list(self) -> Seq<OrganizationView> {
        Seq::new(self.organization_ids.len(), |i: int| self.organizations[self.organization_ids[i]])
    }

    /// The store after a change at time `now` that leaves the records as
    /// they are in `self`.
    pub open spec fn touched(self, now: Timestamp) -> StorageView {
        StorageView {
            sync_state: DataSyncState { last_data_update: now, ..self.sync_state },
            ..self
        }
    }

    /// Why `create_user` would refuse, if it would.
    pub open spec fn create_user_error(self, user: UserView, outcome: PersistOutcome) -> Option<
        StorageError,
    > {
        if self.users.dom().contains(user.id) || self.email_index.dom().contains(user.email) {
            Some(StorageError::AlreadyExists)
        } else if outcome == PersistOutcome::Failed {
            Some(StorageError::IoFailure)
        } else {
            None
        }
    }

    /// Why `update_user` would refuse, if it would.
    pub open spec fn update_user_error(
        self,
        user_id: Seq<char>,
        user: UserView,
        outcome: PersistOutcome,
    ) -> Option<StorageError> {
        if !self.users.dom().contains(user_id) {
            Some(StorageError::NotFound)
        } else if self.email_index.dom().contains(user.email) && self.email_index[user.email]
            != user_id {
            Some(StorageError::AlreadyExists)
        } else if outcome == PersistOutcome::Failed {
            Some(StorageError::IoFailure)
        } else {
            None
        }
    }

    /// The store with the record of `user_id` replaced by `user`. The record
    /// keeps its identifier, and the email index follows the record.
    pub open spec fn with_user_replaced(
        self,
        user_id: Seq<char>,
        user: UserView,
        now: Timestamp,
    ) -> StorageView {
        StorageView {
            users: self.users.insert(user_id, UserView { id: user_id, ..user }),
            email_index: self.email_index.remove(self.users[user_id].email).insert(
                user.email,
                user_id,
            ),
            ..self
        }.touched(now)
    }

    /// The store without the user `user_id`.
    pub open spec fn with_user_removed(self, user_id: Seq<char>, now: Timestamp) -> StorageView {
        StorageView {
            users: self.users.remove(user_id),
            user_ids: self.user_ids.remove(self.user_ids.index_of(user_id)),
            email_index: self.email_index.remove(self.users[user_id].email),
            ..self
        }.touched(now)
    }

    /// Why `add_client` would refuse, if it would.
    pub open spec fn add_client_error(self, client: ClientView, outcome: PersistOutcome) -> Option<
        StorageError,
    > {
        if self.clients.dom().contains(client.client_id) {
            Some(StorageError::AlreadyExists)
        } else if outcome == PersistOutcome::Failed {
            Some(StorageError::IoFailure)
        } else {
            None
        }
    }

    /// Why a change to the client `client_id` would refuse, if it would.
    pub open spec fn change_client_error(
        self,
        client_id: Seq<char>,
        outcome: PersistOutcome,
    ) -> Option<
        StorageError,
    > {
        if !self.clients.dom().contains(client_id) {
            Some(StorageError::NotFound)
        } else if outcome == PersistOutcome::Failed {
            Some(StorageError::IoFailure)
        } else {
            None
        }
    }

    /// The store with one more client.
    pub open spec fn with_client_added(self, client: ClientView, now: Timestamp) -> StorageView {
        StorageView {
            clients: self.clients.insert(client.client_id, client),
            client_ids: self.client_ids.push(client.client_id),
            ..self
        }.touched(now)
    }

    /// The store with the record of `client_id` replaced by `client`; the record
    /// keeps its identifier.
    pub open spec fn with_client_replaced(
        self,
        client_id: Seq<char>,
        client: ClientView,
        now: Timestamp,
    ) -> StorageView {
        StorageView {
            clients: self.clients.insert(client_id, ClientView { client_id, ..client }),
            ..self
        }.touched(now)
    }

    /// The store without the client `client_id`.
    pub open spec fn with_client_removed(
        self,
        client_id: Seq<char>,
        now: Timestamp,
    ) -> StorageView {
        StorageView {
            clients: self.clients.remove(client_id),
            client_ids: self.client_ids.remove(self.client_ids.index_of(client_id)),
            ..self
        }.touched(now)
    }

    /// Why `add_organization` would refuse, if it would.
    pub open spec fn add_organization_error(
        self,
        organization: OrganizationView,
        outcome: PersistOutcome,
    ) -> Option<
        StorageError,
    > {
        if self.organizations.dom().contains(organization.id) {
            Some(StorageError::AlreadyExists)
        } else if outcome == PersistOutcome::Failed {
            Some(StorageError::IoFailure)
        } else {
            None
        }
    }

    /// Why a change to the organization `id` would refuse, if it would.
    pub open spec fn change_organization_error(
        self,
        id: Seq<char>,
        outcome: PersistOutcome,
    ) -> Option<
        StorageError,
    > {
        if !self.organizations.dom().contains(id) {
            Some(StorageError::NotFound)
        } else if outcome == PersistOutcome::Failed {
            Some(StorageError::IoFailure)
        } else {
            None
        }
    }

    /// The store with one more organization.
    pub open spec fn with_organization_added(
        self,
        organization: OrganizationView,
        now: Timestamp,
    ) -> StorageView {
        StorageView {
            organizations: self.organizations.insert(organization.id, organization),
            organization_ids: self.organization_ids.push(organization.id),
            ..self
        }.touched(now)
    }

    /// The store with the record of `id` replaced by `organization`; the record
    /// keeps its identifier.
    pub open spec fn with_organization_replaced(
        self,
        id: Seq<char>,
        organization: OrganizationView,
        now: Timestamp,
    ) -> StorageView {
        StorageView {
            organizations: self.organizations.insert(id, OrganizationView { id, ..organization }),
            ..self
        }.touched(now)
    }

    /// The store without the organization `id`.
    pub open spec fn with_organization_removed(self, id: Seq<char>, now: Timestamp) -> StorageView {
        StorageView {
            organizations: self.organizations.remove(id),
            organization_ids: self.organization_ids.remove(self.organization_ids.index_of(id)),
            ..self
        }.touched(now)
    }

    /// The store with another registry.
    pub open spec fn with_registry(
        self,
        registry: Map<Seq<char>, ClaimDefinitionView>,
        now: Timestamp,
    ) -> StorageView {
        StorageView { registry, ..self }.touched(now)
    }

    /// Why a change to the definition of `key` would refuse, if it would.
    pub open spec fn change_claim_error(self, key: Seq<char>, outcome: PersistOutcome) -> Option<
        StorageError,
    > {
        if !self.registry.dom().contains(key) {
            Some(StorageError::NotFound)
        } else if outcome == PersistOutcome::Failed {
            Some(StorageError::IoFailure)
        } else {
            None
        }
    }

    /// The data has changed since the token service was last told to read it.
    pub open spec fn is_auth_stale(self) -> bool {
        self.sync_state.last_data_update.is_after(self.sync_state.last_auth_reload)
    }

    /// The client collection as it will be once the record of `client_id` is
    /// replaced by `replacement`, or left out where there is none.
    pub open spec fn client_list_with(
        self,
        client_id: Seq<char>,
        replacement: Option<ClientView>,
    ) -> Seq<
        ClientView,
    > {
        self.client_ids.filter_map(self.client_or(client_id, replacement))
    }

    /// For each key, the client to list under it: `replacement` for `client_id`,
    /// the stored record for any other key.
    pub open spec fn client_or(
        self,
        client_id: Seq<char>,
        replacement: Option<ClientView>,
    ) -> spec_fn(
        Seq<char>,
    ) -> Option<ClientView> {
        |key: Seq<char>|
            if key == client_id {
                replacement
            } else {
                Some(self.clients[key])
            }
    }

    /// The steps that write the client collection `clients` to its document.
    pub open spec fn client_write_steps(self, clients: Seq<ClientView>) -> Seq<FileActionView> {
        atomic_write_steps(clients_file_path(self.data_dir), DocumentView::Clients(clients))
    }

    /// The organization collection as it will be once the record of `id` is
    /// replaced by `replacement`, or left out where there is none.
    pub open spec fn organization_list_with(
        self,
        id: Seq<char>,
        replacement: Option<OrganizationView>,
    ) -> Seq<
        OrganizationView,
    > {
        self.organization_ids.filter_map(self.organization_or(id, replacement))
    }

    /// For each key, the organization to list under it: `replacement` for `id`,
    /// the stored record for any other key.
    pub open spec fn organization_or(
        self,
        id: Seq<char>,
        replacement: Option<OrganizationView>,
    ) -> spec_fn(
        Seq<char>,
    ) -> Option<OrganizationView> {
        |key: Seq<char>|
            if key == id {
                replacement
            } else {
                Some(self.organizations[key])
            }
    }

    /// The steps that write the organization collection `organizations` to its document.
    pub open spec fn organization_write_steps(
        self,
        organizations: Seq<OrganizationView>,
    ) -> Seq<FileActionView> {
        atomic_write_steps(
            organizations_file_path(self.data_dir),
            DocumentView::Organizations(organizations),
        )
    }

    /// What replacing the record of `user_id` by `user` means on disk: the
    /// new record is written under its organization, and where that is
    /// another organization than before, the old file is deleted.
    pub open spec fn user_move_steps(self, user_id: Seq<char>, user: UserView) -> Seq<
        FileActionView,
    > {
        let old_org = self.users[user_id].org;
        user_write_steps(self.data_dir, UserView { id: user_id, ..user }) + if old_org
            != user.org {
            seq![
                FileActionView::RemoveFile {
                    path: user_file_path(self.data_dir, old_org, user_id),
                },
            ]
        } else {
            Seq::<FileActionView>::empty()
        }
    }

    /// What writing the whole store means on disk: the registry, then every
    /// user in the order of the store, then the clients, then the
    /// organizations.
    pub open spec fn persist_steps(self) -> Seq<FileActionView> {
        self.registry_write_steps(self.registry) + users_write_steps(
            self.data_dir,
            self.user_list(),
        ) + self.client_write_steps(self.client_list()) + self.organization_write_steps(
            self.organization_list(),
        )
    }

    /// The steps that write `registry` to the registry's document.
    pub open spec fn registry_write_steps(
        self,
        registry: Map<Seq<char>, ClaimDefinitionView>,
    ) -> Seq<FileActionView> {
        atomic_write_steps(registry_file_path(self.data_dir), DocumentView::Registry(registry))
    }

    /// A store that holds a registry and no record, made at `now`.
    pub open spec fn empty(
        data_dir: Seq<char>,
        auth_pid_file: Seq<char>,
        registry: Map<Seq<char>, ClaimDefinitionView>,
        now: Timestamp,
    ) -> StorageView {
        StorageView {
            users: Map::empty(),
            user_ids: Seq::empty(),
            email_index: Map::empty(),
            organizations: Map::empty(),
            organization_ids: Seq::empty(),
            clients: Map::empty(),
            client_ids: Seq::empty(),
            registry,
            data_dir,
            auth_pid_file,
            sync_state: DataSyncState { last_auth_reload: now, last_data_update: now },
        }
    }

    /// The store after a user was read in: it joins the store unless its id
    /// or its email is taken by a user read before it.
    pub open spec fn with_user_loaded(self, user: UserView) -> StorageView {
        if self.users.dom().contains(user.id) || self.email_index.dom().contains(user.email) {
            self
        } else {
            StorageView {
                users: self.users.insert(user.id, user),
                user_ids: self.user_ids.push(user.id),
                email_index: self.email_index.insert(user.email, user.id),
                ..self
            }
        }
    }

    /// The store after a client was read in: it joins the store unless its
    /// id is taken by a client read before it.
    pub open spec fn with_client_loaded(self, client: ClientView) -> StorageView {
        if self.clients.dom().contains(client.client_id) {
            self
        } else {
            StorageView {
                clients: self.clients.insert(client.client_id, client),
                client_ids: self.client_ids.push(client.client_id),
                ..self
            }
        }
    }

    /// The store after an organization was read in: it joins the store
    /// unless its id is taken by one read before it.
    pub open spec fn with_organization_loaded(self, organization: OrganizationView) -> StorageView {
        if self.organizations.dom().contains(organization.id) {
            self
        } else {
            StorageView {
                organizations: self.organizations.insert(organization.id, organization),
                organization_ids: self.organization_ids.push(organization.id),
                ..self
            }
        }
    }

    /// The store with one more user.
    pub open spec fn with_user_added(self, user: UserView, now: Timestamp) -> StorageView {
        StorageView {
            users: self.users.insert(user.id, user),
            user_ids: self.user_ids.push(user.id),
            email_index: self.email_index.insert(user.email, user.id),
            ..self
        }.touched(now)
    }
}

impl View for AdminStorage {
    type V = StorageView;

    closed spec fn view(&self) -> StorageView {
        StorageView {
            users: self.users@.map_values(|u: User| u@),
            user_ids: self.users.keys(),
            email_index: self.email_index@.map_values(|id: String| id@),
            organizations: self.organizations@.map_values(|o: Organization| o@),
            organization_ids: self.organizations.keys(),
            clients: self.clients@.map_values(|c: Client| c@),
            client_ids: self.clients.keys(),
            registry: self.claims_registry@,
            data_dir: self.data_dir@,
            auth_pid_file: self.auth_pid_file@,
            sync_state: self.sync_state,
        }
    }
}

impl AdminStorage {
    /// The invariant of the store, which every operation keeps.
    pub open spec fn wf(&self) -> bool {
        self@.wf()
    }

    proof fn lemma_tables_wf(&self)
        requires
            self.wf(),
        ensures
            self.users.wf(),
            self.clients.wf(),
            self.organizations.wf(),
    {
    }

    /// Adds a user whose plan the driver has gone through. A user whose id or
    /// email is taken is refused whatever the outcome; a plan that failed
    /// leaves the store as it was.
    pub fn create_user(&mut self, user: User, outcome: PersistOutcome, now: Timestamp) -> (result:
        Result<User, StorageError>)
        requires
            old(self).wf(),
        ensures
            final(self).wf(),
            match old(self)@.create_user_error(user@, outcome) {
                Some(error) => result == Err::<User, StorageError>(error) && final(self)@ == old(
                    self,
                )@,
                None => result.is_ok() && result.unwrap()@ == user@ && final(self)@ == old(
                    self,
                )@.with_user_added(user@, now),
            },
    {
        if self.users.contains_key(user.id.as_str()) || self.email_index.contains_key(
            user.email.as_str(),
        ) {
            return Err(StorageError::AlreadyExists);
        }
        match outcome {
            PersistOutcome::Failed => {
                return Err(StorageError::IoFailure);
            },
            PersistOutcome::Persisted => {},
        }
        proof {
            self.lemma_tables_wf();
        }
        let stored = user.clone();
        self.email_index.insert(user.email.clone(), user.id.clone());
        self.users.insert(user.id.clone(), user);
        self.sync_state.last_data_update = now;
        proof {
            let before = old(self)@;
            let after = self@;
            let expected = before.with_user_added(user@, now);
            assert(after.email_index =~= expected.email_index);
        }
        Ok(stored)
    }
}

/// The steps that persist each of `users`, one after the other.
pub open spec fn users_write_steps(data_dir: Seq<char>, users: Seq<UserView>) -> Seq<
    FileActionView,
>
    decreases users.len(),
{
    if users.len() == 0 {
        Seq::empty()
    } else {
        users_write_steps(data_dir, users.drop_last()) + user_write_steps(data_dir, users.last())
    }
}

/// The users of one organization.
pub open spec fn in_org(org: Seq<char>) -> spec_fn(UserView) -> bool {
    |user: UserView| user.org == org
}

/// The users that the free-text search for `query` finds.
pub open spec fn found_by(query: Seq<char>) -> spec_fn(UserView) -> bool {
    |user: UserView| user.matches_search(query)
}

/// The users that carry the claim `key` with the string `value`.
pub open spec fn carrying(key: Seq<char>, value: Seq<char>) -> spec_fn(UserView) -> bool {
    |user: UserView| user.has_claim(key, value)
}

/// The users that administer `role`, by name or through the scope `all`.
pub open spec fn administering(role: Seq<char>) -> spec_fn(UserView) -> bool {
    |user: UserView| user.is_admin_for_org(role)
}

/// The views of a list of borrowed users.
pub open spec fn user_views(users: Seq<&User>) -> Seq<UserView> {
    users.map_values(|u: &User| u@)
}

/// The views of a list of borrowed clients.
pub open spec fn client_views(clients: Seq<&Client>) -> Seq<ClientView> {
    clients.map_values(|c: &Client| c@)
}

/// The views of a list of borrowed organizations.
pub open spec fn organization_views(orgs: Seq<&Organization>) -> Seq<OrganizationView> {
    orgs.map_values(|o: &Organization| o@)
}

impl AdminStorage {
    /// Replaces the record of `user_id`. The record keeps its identifier
    /// whatever `user.id` says; an email that belongs to another user is
    /// refused.
    pub fn update_user(
        &mut self,
        user_id: &str,
        user: User,
        outcome: PersistOutcome,
        now: Timestamp,
    ) -> (result: Result<User, StorageError>)
        requires
            old(self).wf(),
        ensures
            final(self).wf(),
            match old(self)@.update_user_error(user_id@, user@, outcome) {
                Some(error) => result == Err::<User, StorageError>(error) && final(self)@ == old(
                    self,
                )@,
                None => result.is_ok() && result.unwrap()@ == (UserView { id: user_id@, ..user@ })
                    && final(self)@ == old(self)@.with_user_replaced(user_id@, user@, now),
            },
    {
        let old_email = match self.users.get(user_id) {
            None => {
                return Err(StorageError::NotFound);
            },
            Some(current) => current.email.clone(),
        };
        match self.email_index.get(user.email.as_str()) {
            Some(owner) => {
                if !str_eq(owner.as_str(), user_id) {
                    return Err(StorageError::AlreadyExists);
                }
            },
            None => {},
        }
        match outcome {
            PersistOutcome::Failed => {
                return Err(StorageError::IoFailure);
            },
            PersistOutcome::Persisted => {},
        }
        let mut stored = user;
        stored.id = user_id.to_owned();
        let copy = stored.clone();
        self.email_index.remove(old_email.as_str());
        self.email_index.insert(stored.email.clone(), user_id.to_owned());
        self.users.replace(user_id, stored);
        self.sync_state.last_data_update = now;
        proof {
            let before = old(self)@;
            let after = self@;
            let expected = before.with_user_replaced(user_id@, user@, now);
            assert(after.email_index =~= expected.email_index);
        }
        Ok(copy)
    }

    /// Removes the user `user_id`. Removing a user that is not there changes
    /// nothing and is no error.
    pub fn delete_user(
        &mut self,
        user_id: &str,
        outcome: PersistOutcome,
        now: Timestamp,
    ) -> (result:
        Result<(), StorageError>)
        requires
            old(self).wf(),
        ensures
            final(self).wf(),
            result.is_err() == (old(self)@.users.dom().contains(user_id@) && outcome
                == PersistOutcome::Failed),
            result.is_err() ==> result == Err::<(), StorageError>(StorageError::IoFailure),
            final(self)@ == if old(self)@.users.dom().contains(user_id@) && outcome
                == PersistOutcome::Persisted {
                old(self)@.with_user_removed(user_id@, now)
            } else {
                old(self)@
            },
    {
        let email = match self.users.get(user_id) {
            None => {
                return Ok(());
            },
            Some(current) => current.email.clone(),
        };
        match outcome {
            PersistOutcome::Failed => {
                return Err(StorageError::IoFailure);
            },
            PersistOutcome::Persisted => {},
        }
        proof {
            self.lemma_tables_wf();
        }
        self.email_index.remove(email.as_str());
        self.users.remove(user_id);
        self.sync_state.last_data_update = now;
        proof {
            let before = old(self)@;
            let after = self@;
            let expected = before.with_user_removed(user_id@, now);
            assert(after.email_index =~= expected.email_index);
        }
        Ok(())
    }

    pub fn get_user(&self, user_id: &str) -> (user: Option<&User>)
        ensures
            user.is_some() == self@.users.dom().contains(user_id@),
            user.is_some() ==> user.unwrap()@ == self@.users[user_id@],
    {
        self.users.get(user_id)
    }

    /// The user with this email, found through the email index.
    pub fn get_user_by_email(&self, email: &str) -> (user: Option<&User>)
        requires
            self.wf(),
        ensures
            user.is_some() == self@.email_index.dom().contains(email@),
            user.is_some() ==> user.unwrap()@ == self@.users[self@.email_index[email@]],
            user.is_some() ==> user.unwrap()@.email == email@,
    {
        match self.email_index.get(email) {
            None => None,
            Some(user_id) => {
                self.users.get(user_id.as_str())
            },
        }
    }

    /// Every user, in the order in which they came.
    pub fn get_all_users(&self) -> (users: Vec<&User>)
        requires
            self.wf(),
        ensures
            user_views(users@) == self@.user_list(),
    {
        let mut out: Vec<&User> = Vec::new();
        let mut i: usize = 0;
        while i < self.users.len()
            invariant
                self.users.wf(),
                i <= self.users.keys().len(),
                out.len() == i,
                forall|j: int| 0 <= j < i ==> out[j]@ == self@.user_list()[j],
            decreases self.users.keys().len() - i,
        {
            out.push(self.users.value_at(i));
            i += 1;
        }
        out
    }

    pub fn get_users_by_org(&self, org: &str) -> (users: Vec<&User>)
        requires
            self.wf(),
        ensures
            user_views(users@) == self@.user_list().filter(in_org(org@)),
    {
        let ghost listing = self@.user_list();
        let ghost keep = in_org(org@);
        let mut out: Vec<&User> = Vec::new();
        let mut i: usize = 0;
        while i < self.users.len()
            invariant
                self.users.wf(),
                listing == self@.user_list(),
                keep == in_org(org@),
                i <= self.users.keys().len(),
                user_views(out@) == listing.take(i as int).filter(keep),
            decreases self.users.keys().len() - i,
        {
            let user = self.users.value_at(i);
            proof {
                lemma_filter_next(listing, i as int, keep);
            }
            if str_eq(user.org.as_str(), org) {
                out.push(user);
            }
            i += 1;
        }
        assert(listing.take(i as int) =~= listing);
        out
    }

    /// Free-text search over email, first name and last name, whatever the
    /// case of the letters. A linear scan.
    pub fn search_users(&self, query: &str) -> (users: Vec<&User>)
        requires
            self.wf(),
        ensures
            user_views(users@) == self@.user_list().filter(found_by(query@)),
    {
        let needle = to_lowercase(query);
        let ghost listing = self@.user_list();
        let ghost keep = found_by(query@);
        let mut out: Vec<&User> = Vec::new();
        let mut i: usize = 0;
        while i < self.users.len()
            invariant
                self.users.wf(),
                listing == self@.user_list(),
                keep == found_by(query@),
                needle@ == lowercase_of(query@),
                i <= self.users.keys().len(),
                user_views(out@) == listing.take(i as int).filter(keep),
            decreases self.users.keys().len() - i,
        {
            let user = self.users.value_at(i);
            proof {
                lemma_filter_next(listing, i as int, keep);
            }
            if user.matches_lowered(needle.as_str()) {
                out.push(user);
            }
            i += 1;
        }
        assert(listing.take(i as int) =~= listing);
        out
    }

    pub fn find_users_by_claim(&self, claim_key: &str, claim_value: &str) -> (users: Vec<&User>)
        requires
            self.wf(),
        ensures
            user_views(users@) == self@.user_list().filter(carrying(claim_key@, claim_value@)),
    {
        let ghost listing = self@.user_list();
        let ghost keep = carrying(claim_key@, claim_value@);
        let mut out: Vec<&User> = Vec::new();
        let mut i: usize = 0;
        while i < self.users.len()
            invariant
                self.users.wf(),
                listing == self@.user_list(),
                keep == carrying(claim_key@, claim_value@),
                i <= self.users.keys().len(),
                user_views(out@) == listing.take(i as int).filter(keep),
            decreases self.users.keys().len() - i,
        {
            let user = self.users.value_at(i);
            proof {
                lemma_filter_next(listing, i as int, keep);
            }
            if user.has_claim(claim_key, claim_value) {
                out.push(user);
            }
            i += 1;
        }
        assert(listing.take(i as int) =~= listing);
        out
    }

    /// The users that hold the admin scope `role`, or the scope `all`.
    pub fn find_users_by_role(&self, role: &str) -> (users: Vec<&User>)
        requires
            self.wf(),
        ensures
            user_views(users@) == self@.user_list().filter(administering(role@)),
    {
        let ghost listing = self@.user_list();
        let ghost keep = administering(role@);
        let mut out: Vec<&User> = Vec::new();
        let mut i: usize = 0;
        while i < self.users.len()
            invariant
                self.users.wf(),
                listing == self@.user_list(),
                keep == administering(role@),
                i <= self.users.keys().len(),
                user_views(out@) == listing.take(i as int).filter(keep),
            decreases self.users.keys().len() - i,
        {
            let user = self.users.value_at(i);
            proof {
                lemma_filter_next(listing, i as int, keep);
            }
            if user.is_admin_for_org(role) {
                out.push(user);
            }
            i += 1;
        }
        assert(listing.take(i as int) =~= listing);
        out
    }

    /// Adds a client whose plan the driver has gone through. An identifier
    /// that is taken is refused; a plan that failed leaves the store as it was.
    pub fn add_client(
        &mut self,
        client: Client,
        outcome: PersistOutcome,
        now: Timestamp,
    ) -> (result:
        Result<Client, StorageError>)
        requires
            old(self).wf(),
        ensures
            final(self).wf(),
            match old(self)@.add_client_error(client@, outcome) {
                Some(error) => result == Err::<Client, StorageError>(error) && final(self)@
                    == old(self)@,
                None => result.is_ok() && result.unwrap()@ == client@ && final(self)@ == old(
                    self,
                )@.with_client_added(client@, now),
            },
    {
        if self.clients.contains_key(client.client_id.as_str()) {
            return Err(StorageError::AlreadyExists);
        }
        match outcome {
            PersistOutcome::Failed => {
                return Err(StorageError::IoFailure);
            },
            PersistOutcome::Persisted => {},
        }
        proof {
            self.lemma_tables_wf();
        }
        let stored = client.clone();
        self.clients.insert(client.client_id.clone(), client);
        self.sync_state.last_data_update = now;
        Ok(stored)
    }

    /// Replaces the record of `client_id`. The record keeps its identifier
    /// whatever `client.client_id` says.
    pub fn update_client(
        &mut self,
        client_id: &str,
        client: Client,
        outcome: PersistOutcome,
        now: Timestamp,
    ) -> (result: Result<Client, StorageError>)
        requires
            old(self).wf(),
        ensures
            final(self).wf(),
            match old(self)@.change_client_error(client_id@, outcome) {
                Some(error) => result == Err::<Client, StorageError>(error) && final(self)@
                    == old(self)@,
                None => result.is_ok() && result.unwrap()@ == (ClientView {
                    client_id: client_id@,
                    ..client@
                }) && final(self)@ == old(self)@.with_client_replaced(client_id@, client@, now),
            },
    {
        if !self.clients.contains_key(client_id) {
            return Err(StorageError::NotFound);
        }
        match outcome {
            PersistOutcome::Failed => {
                return Err(StorageError::IoFailure);
            },
            PersistOutcome::Persisted => {},
        }
        let mut stored = client;
        stored.client_id = client_id.to_owned();
        let copy = stored.clone();
        self.clients.replace(client_id, stored);
        self.sync_state.last_data_update = now;
        Ok(copy)
    }

    /// Removes the client `client_id`. Removing one that is not there changes
    /// nothing and is no error.
    pub fn delete_client(
        &mut self,
        client_id: &str,
        outcome: PersistOutcome,
        now: Timestamp,
    ) -> (result:
        Result<(), StorageError>)
        requires
            old(self).wf(),
        ensures
            final(self).wf(),
            result.is_err() == (old(self)@.clients.dom().contains(client_id@) && outcome
                == PersistOutcome::Failed),
            result.is_err() ==> result == Err::<(), StorageError>(StorageError::IoFailure),
            final(self)@ == if old(self)@.clients.dom().contains(client_id@) && outcome
                == PersistOutcome::Persisted {
                old(self)@.with_client_removed(client_id@, now)
            } else {
                old(self)@
            },
    {
        if !self.clients.contains_key(client_id) {
            return Ok(());
        }
        match outcome {
            PersistOutcome::Failed => {
                return Err(StorageError::IoFailure);
            },
            PersistOutcome::Persisted => {},
        }
        proof {
            self.lemma_tables_wf();
        }
        self.clients.remove(client_id);
        self.sync_state.last_data_update = now;
        Ok(())
    }

    pub fn get_client(&self, client_id: &str) -> (client: Option<&Client>)
        ensures
            client.is_some() == self@.clients.dom().contains(client_id@),
            client.is_some() ==> client.unwrap()@ == self@.clients[client_id@],
    {
        self.clients.get(client_id)
    }

    /// Every client, in the order in which they came.
    pub fn get_all_clients(&self) -> (clients: Vec<&Client>)
        requires
            self.wf(),
        ensures
            client_views(clients@) == self@.client_list(),
    {
        let mut out: Vec<&Client> = Vec::new();
        let mut i: usize = 0;
        while i < self.clients.len()
            invariant
                self.clients.wf(),
                i <= self.clients.keys().len(),
                out.len() == i,
                forall|j: int| 0 <= j < i ==> out[j]@ == self@.client_list()[j],
            decreases self.clients.keys().len() - i,
        {
            out.push(self.clients.value_at(i));
            i += 1;
        }
        out
    }

    /// Adds an organization whose plan the driver has gone through. An identifier
    /// that is taken is refused; a plan that failed leaves the store as it was.
    pub fn add_organization(
        &mut self,
        organization: Organization,
        outcome: PersistOutcome,
        now: Timestamp,
    ) -> (result:
        Result<Organization, StorageError>)
        requires
            old(self).wf(),
        ensures
            final(self).wf(),
            match old(self)@.add_organization_error(organization@, outcome) {
                Some(error) => result == Err::<Organization, StorageError>(error) && final(self)@
                    == old(self)@,
                None => result.is_ok() && result.unwrap()@ == organization@ && final(self)@ == old(
                    self,
                )@.with_organization_added(organization@, now),
            },
    {
        if self.organizations.contains_key(organization.id.as_str()) {
            return Err(StorageError::AlreadyExists);
        }
        match outcome {
            PersistOutcome::Failed => {
                return Err(StorageError::IoFailure);
            },
            PersistOutcome::Persisted => {},
        }
        proof {
            self.lemma_tables_wf();
        }
        let stored = organization.clone();
        self.organizations.insert(organization.id.clone(), organization);
        self.sync_state.last_data_update = now;
        Ok(stored)
    }

    /// Replaces the record of `org_id`. The record keeps its identifier
    /// whatever `organization.id` says.
    pub fn update_organization(
        &mut self,
        org_id: &str,
        organization: Organization,
        outcome: PersistOutcome,
        now: Timestamp,
    ) -> (result: Result<Organization, StorageError>)
        requires
            old(self).wf(),
        ensures
            final(self).wf(),
            match old(self)@.change_organization_error(org_id@, outcome) {
                Some(error) => result == Err::<Organization, StorageError>(error) && final(self)@
                    == old(self)@,
                None => result.is_ok() && result.unwrap()@ == (OrganizationView {
                    id: org_id@,
                    ..organization@
                }) && final(self)@ ==
                    old(self)@.with_organization_replaced(org_id@, organization@, now),
            },
    {
        if !self.organizations.contains_key(org_id) {
            return Err(StorageError::NotFound);
        }
        match outcome {
            PersistOutcome::Failed => {
                return Err(StorageError::IoFailure);
            },
            PersistOutcome::Persisted => {},
        }
        let mut stored = organization;
        stored.id = org_id.to_owned();
        let copy = stored.clone();
        self.organizations.replace(org_id, stored);
        self.sync_state.last_data_update = now;
        Ok(copy)
    }

    /// Removes the organization `org_id`. Removing one that is not there changes
    /// nothing and is no error.
    pub fn delete_organization(
        &mut self,
        org_id: &str,
        outcome: PersistOutcome,
        now: Timestamp,
    ) -> (result:
        Result<(), StorageError>)
        requires
            old(self).wf(),
        ensures
            final(self).wf(),
            result.is_err() == (old(self)@.organizations.dom().contains(org_id@) && outcome
                == PersistOutcome::Failed),
            result.is_err() ==> result == Err::<(), StorageError>(StorageError::IoFailure),
            final(self)@ == if old(self)@.organizations.dom().contains(org_id@) && outcome
                == PersistOutcome::Persisted {
                old(self)@.with_organization_removed(org_id@, now)
            } else {
                old(self)@
            },
    {
        if !self.organizations.contains_key(org_id) {
            return Ok(());
        }
        match outcome {
            PersistOutcome::Failed => {
                return Err(StorageError::IoFailure);
            },
            PersistOutcome::Persisted => {},
        }
        proof {
            self.lemma_tables_wf();
        }
        self.organizations.remove(org_id);
        self.sync_state.last_data_update = now;
        Ok(())
    }

    pub fn get_organization(&self, org_id: &str) -> (organization: Option<&Organization>)
        ensures
            organization.is_some() == self@.organizations.dom().contains(org_id@),
            organization.is_some() ==> organization.unwrap()@ == self@.organizations[org_id@],
    {
        self.organizations.get(org_id)
    }

    /// Every organization, in the order in which they came.
    pub fn get_all_organizations(&self) -> (organizations: Vec<&Organization>)
        requires
            self.wf(),
        ensures
            organization_views(organizations@) == self@.organization_list(),
    {
        let mut out: Vec<&Organization> = Vec::new();
        let mut i: usize = 0;
        while i < self.organizations.len()
            invariant
                self.organizations.wf(),
                i <= self.organizations.keys().len(),
                out.len() == i,
                forall|j: int| 0 <= j < i ==> out[j]@ == self@.organization_list()[j],
            decreases self.organizations.keys().len() - i,
        {
            out.push(self.organizations.value_at(i));
            i += 1;
        }
        out
    }

    /// The registry that the store holds.
    pub fn get_claims(&self) -> (registry: &ClaimsRegistry)
        ensures
            registry@ == self@.registry,
    {
        &self.claims_registry
    }

    /// Replaces the whole registry.
    pub fn update_claims_registry(
        &mut self,
        new_registry: ClaimsRegistry,
        outcome: PersistOutcome,
        now: Timestamp,
    ) -> (result: Result<(), StorageError>)
        requires
            old(self).wf(),
        ensures
            final(self).wf(),
            result.is_err() == (outcome == PersistOutcome::Failed),
            result.is_err() ==> result == Err::<(), StorageError>(StorageError::IoFailure),
            final(self)@ == if outcome == PersistOutcome::Persisted {
                old(self)@.with_registry(new_registry@, now)
            } else {
                old(self)@
            },
    {
        match outcome {
            PersistOutcome::Failed => {
                return Err(StorageError::IoFailure);
            },
            PersistOutcome::Persisted => {},
        }
        self.claims_registry = new_registry;
        self.sync_state.last_data_update = now;
        Ok(())
    }

    /// Defines the claim `key`, replacing an earlier definition of it.
    pub fn add_claim(
        &mut self,
        key: String,
        claim: ClaimDefinition,
        outcome: PersistOutcome,
        now: Timestamp,
    ) -> (result: Result<(), StorageError>)
        requires
            old(self).wf(),
        ensures
            final(self).wf(),
            result.is_err() == (outcome == PersistOutcome::Failed),
            result.is_err() ==> result == Err::<(), StorageError>(StorageError::IoFailure),
            final(self)@ == if outcome == PersistOutcome::Persisted {
                old(self)@.with_registry(old(self)@.registry.insert(key@, claim@), now)
            } else {
                old(self)@
            },
    {
        match outcome {
            PersistOutcome::Failed => {
                return Err(StorageError::IoFailure);
            },
            PersistOutcome::Persisted => {},
        }
        self.claims_registry.insert(key, claim);
        self.sync_state.last_data_update = now;
        Ok(())
    }

    /// Replaces the definition of a claim that the registry knows.
    pub fn update_claim(
        &mut self,
        key: &str,
        updated_claim: ClaimDefinition,
        outcome: PersistOutcome,
        now: Timestamp,
    ) -> (result: Result<(), StorageError>)
        requires
            old(self).wf(),
        ensures
            final(self).wf(),
            match old(self)@.change_claim_error(key@, outcome) {
                Some(error) => result == Err::<(), StorageError>(error) && final(self)@ == old(
                    self,
                )@,
                None => result.is_ok() && final(self)@ == old(self)@.with_registry(
                    old(self)@.registry.insert(key@, updated_claim@),
                    now,
                ),
            },
    {
        if !self.claims_registry.contains_key(key) {
            return Err(StorageError::NotFound);
        }
        match outcome {
            PersistOutcome::Failed => {
                return Err(StorageError::IoFailure);
            },
            PersistOutcome::Persisted => {},
        }
        self.claims_registry.insert(key.to_owned(), updated_claim);
        self.sync_state.last_data_update = now;
        assert(self@ =~= old(self)@.with_registry(
            old(self)@.registry.insert(key@, updated_claim@),
            now,
        ));
        Ok(())
    }

    /// Takes the definition of a claim that the registry knows out of it.
    pub fn delete_claim(&mut self, key: &str, outcome: PersistOutcome, now: Timestamp) -> (result:
        Result<(), StorageError>)
        requires
            old(self).wf(),
        ensures
            final(self).wf(),
            match old(self)@.change_claim_error(key@, outcome) {
                Some(error) => result == Err::<(), StorageError>(error) && final(self)@ == old(
                    self,
                )@,
                None => result.is_ok() && final(self)@ == old(self)@.with_registry(
                    old(self)@.registry.remove(key@),
                    now,
                ),
            },
    {
        if !self.claims_registry.contains_key(key) {
            return Err(StorageError::NotFound);
        }
        match outcome {
            PersistOutcome::Failed => {
                return Err(StorageError::IoFailure);
            },
            PersistOutcome::Persisted => {},
        }
        let _ = self.claims_registry.remove(key);
        self.sync_state.last_data_update = now;
        Ok(())
    }

    /// Whether the data has changed since the token service was last told to
    /// read it again. A hint, not a guarantee.
    pub fn is_auth_stale(&self) -> (stale: bool)
        ensures
            stale == self@.is_auth_stale(),
    {
        self.sync_state.last_data_update.after(&self.sync_state.last_auth_reload)
    }

    /// When the data last changed and when a reload was last signalled.
    pub fn sync_state(&self) -> (state: DataSyncState)
        ensures
            state == self@.sync_state,
    {
        self.sync_state
    }

    /// The directory that holds the store's files.
    pub fn data_dir(&self) -> (dir: &str)
        ensures
            dir@ == self@.data_dir,
    {
        self.data_dir.as_str()
    }

    /// The file that holds the process id of the token service.
    pub fn auth_pid_file(&self) -> (path: &str)
        ensures
            path@ == self@.auth_pid_file,
    {
        self.auth_pid_file.as_str()
    }

    /// Notes that the token service was told, at `now`, to read the data
    /// again.
    pub(crate) fn mark_auth_reloaded(&mut self, now: Timestamp)
        ensures
            final(self)@ == (StorageView {
                sync_state: DataSyncState { last_auth_reload: now, ..old(self)@.sync_state },
                ..old(self)@
            }),
            final(self).wf() == old(self).wf(),
    {
        self.sync_state.last_auth_reload = now;
        assert(self@ =~= (StorageView {
            sync_state: DataSyncState { last_auth_reload: now, ..old(self)@.sync_state },
            ..old(self)@
        }));
    }

    /// A copy of the client collection in which the record of `client_id` is
    /// replaced by `replacement`, or left out where there is none.
    fn client_list_with(&self, client_id: &str, replacement: Option<&Client>) -> (list: Vec<Client>)
        requires
            self.wf(),
        ensures
            list@.map_values(|r: Client| r@) == self@.client_list_with(
                client_id@,
                match replacement {
                    Some(r) => Some(ClientView { client_id: client_id@, ..r@ }),
                    None => None,
                },
            ),
    {
        let ghost swap = match replacement {
            Some(r) => Some(ClientView { client_id: client_id@, ..r@ }),
            None => None,
        };
        let ghost pick = self@.client_or(client_id@, swap);
        let mut out: Vec<Client> = Vec::new();
        let mut i: usize = 0;
        while i < self.clients.len()
            invariant
                self.clients.wf(),
                self.wf(),
                i <= self.clients.keys().len(),
                swap == match replacement {
                    Some(r) => Some(ClientView { client_id: client_id@, ..r@ }),
                    None => None,
                },
                pick == self@.client_or(client_id@, swap),
                out@.map_values(|r: Client| r@) == self@.client_ids.take(i as int).filter_map(pick),
            decreases self.clients.keys().len() - i,
        {
            proof {
                lemma_filter_map_next(self@.client_ids, i as int, pick);
            }
            if str_eq(self.clients.key_at(i), client_id) {
                match replacement {
                    Some(r) => {
                        let mut copy = r.clone();
                        copy.client_id = client_id.to_owned();
                        out.push(copy);
                    },
                    None => {},
                }
            } else {
                let copy = self.clients.value_at(i).clone();
                out.push(copy);
            }
            i += 1;
        }
        assert(self@.client_ids.take(i as int) =~= self@.client_ids);
        out
    }

    /// What adding `client` means on disk: the client collection, with the new
    /// record at its end, written to its document.
    pub fn plan_add_client(
        &self,
        client: &Client,
    ) -> (result: Result<Vec<FileAction>, StorageError>)
        requires
            self.wf(),
        ensures
            match self@.add_client_error(client@, PersistOutcome::Persisted) {
                Some(error) => result == Err::<Vec<FileAction>, StorageError>(error),
                None => result.is_ok() && plan_view(result.unwrap()@) == self@.client_write_steps(
                    self@.client_list().push(client@),
                ),
            },
    {
        if self.clients.contains_key(client.client_id.as_str()) {
            return Err(StorageError::AlreadyExists);
        }
        let mut list = self.client_list_with(client.client_id.as_str(), None);
        proof {
            self.lemma_client_list_with_absent(client@.client_id);
        }
        let ghost before = list@.map_values(|r: Client| r@);
        let copy = client.clone();
        list.push(copy);
        assert(list@.map_values(|r: Client| r@) =~= before.push(client@));
        Ok(atomic_write(clients_file(self.data_dir.as_str()), Document::Clients(list)))
    }

    /// What replacing the record of `client_id` means on disk.
    pub fn plan_update_client(&self, client_id: &str, client: &Client) -> (result: Result<
        Vec<FileAction>,
        StorageError,
    >)
        requires
            self.wf(),
        ensures
            match self@.change_client_error(client_id@, PersistOutcome::Persisted) {
                Some(error) => result == Err::<Vec<FileAction>, StorageError>(error),
                None => result.is_ok() && plan_view(result.unwrap()@) == self@.client_write_steps(
                    self@.client_list_with(
                        client_id@,
                        Some(ClientView { client_id: client_id@, ..client@ }),
                    ),
                ),
            },
    {
        if !self.clients.contains_key(client_id) {
            return Err(StorageError::NotFound);
        }
        let list = self.client_list_with(client_id, Some(client));
        Ok(atomic_write(clients_file(self.data_dir.as_str()), Document::Clients(list)))
    }

    /// What removing the client `client_id` means on disk: nothing if it is not
    /// there, else the collection without it, written to its document.
    pub fn plan_delete_client(&self, client_id: &str) -> (plan: Vec<FileAction>)
        requires
            self.wf(),
        ensures
            plan_view(plan@) == if self@.clients.dom().contains(client_id@) {
                self@.client_write_steps(self@.client_list_with(client_id@, None))
            } else {
                Seq::<FileActionView>::empty()
            },
    {
        if !self.clients.contains_key(client_id) {
            let plan: Vec<FileAction> = Vec::new();
            return plan;
        }
        let list = self.client_list_with(client_id, None);
        atomic_write(clients_file(self.data_dir.as_str()), Document::Clients(list))
    }

    /// Replacing or leaving out a record that is not there gives the
    /// collection as it is.
    pub proof fn lemma_client_list_with_absent(&self, client_id: Seq<char>)
        requires
            self.wf(),
            !self@.clients.dom().contains(client_id),
        ensures
            forall|replacement: Option<ClientView>|
                #[trigger] self@.client_list_with(client_id, replacement) == self@.client_list(),
    {
        assert forall|replacement: Option<ClientView>|
            #[trigger] self@.client_list_with(client_id, replacement) == self@.client_list() by {
            let pick = self@.client_or(client_id, replacement);
            let direct = |key: Seq<char>| self@.clients[key];
            lemma_filter_map_total(self@.client_ids, pick, direct);
        }
    }

    /// A copy of the organization collection in which the record of `org_id` is
    /// replaced by `replacement`, or left out where there is none.
    fn organization_list_with(
        &self,
        org_id: &str,
        replacement: Option<&Organization>,
    ) -> (list: Vec<Organization>)
        requires
            self.wf(),
        ensures
            list@.map_values(|r: Organization| r@) == self@.organization_list_with(
                org_id@,
                match replacement {
                    Some(r) => Some(OrganizationView { id: org_id@, ..r@ }),
                    None => None,
                },
            ),
    {
        let ghost swap = match replacement {
            Some(r) => Some(OrganizationView { id: org_id@, ..r@ }),
            None => None,
        };
        let ghost pick = self@.organization_or(org_id@, swap);
        let mut out: Vec<Organization> = Vec::new();
        let mut i: usize = 0;
        assert(self@.organization_ids.take(0).filter_map(pick) =~=
            out@.map_values(|r: Organization| r@));
        while i < self.organizations.len()
            invariant
                self.organizations.wf(),
                self.wf(),
                i <= self.organizations.keys().len(),
                swap == match replacement {
                    Some(r) => Some(OrganizationView { id: org_id@, ..r@ }),
                    None => None,
                },
                pick == self@.organization_or(org_id@, swap),
                out@.map_values(|r: Organization| r@) ==
                    self@.organization_ids.take(i as int).filter_map(pick),
            decreases self.organizations.keys().len() - i,
        {
            proof {
                lemma_filter_map_next(self@.organization_ids, i as int, pick);
            }
            if str_eq(self.organizations.key_at(i), org_id) {
                match replacement {
                    Some(r) => {
                        let mut copy = r.clone();
                        copy.id = org_id.to_owned();
                        out.push(copy);
                    },
                    None => {},
                }
            } else {
                let copy = self.organizations.value_at(i).clone();
                out.push(copy);
            }
            i += 1;
        }
        assert(self@.organization_ids.take(i as int) =~= self@.organization_ids);
        out
    }

    /// What adding `organization` means on disk: the organization collection, with the new
    /// record at its end, written to its document.
    pub fn plan_add_organization(
        &self,
        organization: &Organization,
    ) -> (result: Result<Vec<FileAction>, StorageError>)
        requires
            self.wf(),
        ensures
            match self@.add_organization_error(organization@, PersistOutcome::Persisted) {
                Some(error) => result == Err::<Vec<FileAction>, StorageError>(error),
                None => result.is_ok() && plan_view(result.unwrap()@) ==
                    self@.organization_write_steps(
                    self@.organization_list().push(organization@),
                ),
            },
    {
        if self.organizations.contains_key(organization.id.as_str()) {
            return Err(StorageError::AlreadyExists);
        }
        let mut list = self.organization_list_with(organization.id.as_str(), None);
        proof {
            self.lemma_organization_list_with_absent(organization@.id);
        }
        let ghost before = list@.map_values(|r: Organization| r@);
        let copy = organization.clone();
        list.push(copy);
        assert(list@.map_values(|r: Organization| r@) =~= before.push(organization@));
        Ok(atomic_write(organizations_file(self.data_dir.as_str()), Document::Organizations(list)))
    }

    /// What replacing the record of `org_id` means on disk.
    pub fn plan_update_organization(
        &self,
        org_id: &str,
        organization: &Organization,
    ) -> (result: Result<
        Vec<FileAction>,
        StorageError,
    >)
        requires
            self.wf(),
        ensures
            match self@.change_organization_error(org_id@, PersistOutcome::Persisted) {
                Some(error) => result == Err::<Vec<FileAction>, StorageError>(error),
                None => result.is_ok() && plan_view(result.unwrap()@) ==
                    self@.organization_write_steps(
                    self@.organization_list_with(
                        org_id@,
                        Some(OrganizationView { id: org_id@, ..organization@ }),
                    ),
                ),
            },
    {
        if !self.organizations.contains_key(org_id) {
            return Err(StorageError::NotFound);
        }
        let list = self.organization_list_with(org_id, Some(organization));
        Ok(atomic_write(organizations_file(self.data_dir.as_str()), Document::Organizations(list)))
    }

    /// What removing the organization `org_id` means on disk: nothing if it is not
    /// there, else the collection without it, written to its document.
    pub fn plan_delete_organization(&self, org_id: &str) -> (plan: Vec<FileAction>)
        requires
            self.wf(),
        ensures
            plan_view(plan@) == if self@.organizations.dom().contains(org_id@) {
                self@.organization_write_steps(self@.organization_list_with(org_id@, None))
            } else {
                Seq::<FileActionView>::empty()
            },
    {
        if !self.organizations.contains_key(org_id) {
            let plan: Vec<FileAction> = Vec::new();
            return plan;
        }
        let list = self.organization_list_with(org_id, None);
        atomic_write(organizations_file(self.data_dir.as_str()), Document::Organizations(list))
    }

    /// Replacing or leaving out a record that is not there gives the
    /// collection as it is.
    pub proof fn lemma_organization_list_with_absent(&self, id: Seq<char>)
        requires
            self.wf(),
            !self@.organizations.dom().contains(id),
        ensures
            forall|replacement: Option<OrganizationView>|
                #[trigger] self@.organization_list_with(id, replacement) ==
                    self@.organization_list(),
    {
        assert forall|replacement: Option<OrganizationView>|
            #[trigger] self@.organization_list_with(id, replacement) ==
                self@.organization_list() by {
            let pick = self@.organization_or(id, replacement);
            let direct = |key: Seq<char>| self@.organizations[key];
            lemma_filter_map_total(self@.organization_ids, pick, direct);
        }
    }

    /// What adding `user` means on disk: its file, written under its
    /// organization.
    pub fn plan_create_user(&self, user: &User) -> (result: Result<Vec<FileAction>, StorageError>)
        requires
            self.wf(),
        ensures
            match self@.create_user_error(user@, PersistOutcome::Persisted) {
                Some(error) => result == Err::<Vec<FileAction>, StorageError>(error),
                None => result.is_ok() && plan_view(result.unwrap()@) == user_write_steps(
                    self@.data_dir,
                    user@,
                ),
            },
    {
        if self.users.contains_key(user.id.as_str()) || self.email_index.contains_key(
            user.email.as_str(),
        ) {
            return Err(StorageError::AlreadyExists);
        }
        Ok(persist_user(self.data_dir.as_str(), user))
    }

    /// What replacing the record of `user_id` means on disk. A user whose
    /// organization changes moves to the directory of the new one.
    pub fn plan_update_user(&self, user_id: &str, user: &User) -> (result: Result<
        Vec<FileAction>,
        StorageError,
    >)
        requires
            self.wf(),
        ensures
            match self@.update_user_error(user_id@, user@, PersistOutcome::Persisted) {
                Some(error) => result == Err::<Vec<FileAction>, StorageError>(error),
                None => result.is_ok() && plan_view(result.unwrap()@) == self@.user_move_steps(
                    user_id@,
                    user@,
                ),
            },
    {
        let current = match self.users.get(user_id) {
            None => {
                return Err(StorageError::NotFound);
            },
            Some(current) => current,
        };
        match self.email_index.get(user.email.as_str()) {
            Some(owner) => {
                if !str_eq(owner.as_str(), user_id) {
                    return Err(StorageError::AlreadyExists);
                }
            },
            None => {},
        }
        let mut stored = user.clone();
        stored.id = user_id.to_owned();
        let mut plan = persist_user(self.data_dir.as_str(), &stored);
        let ghost written = plan_view(plan@);
        if !str_eq(current.org.as_str(), user.org.as_str()) {
            let path = user_file(self.data_dir.as_str(), current.org.as_str(), user_id);
            plan.push(FileAction::RemoveFile { path });
            assert(plan_view(plan@) =~= written + seq![
                FileActionView::RemoveFile {
                    path: user_file_path(self@.data_dir, self@.users[user_id@].org, user_id@),
                },
            ]);
        }
        Ok(plan)
    }

    /// What removing the user `user_id` means on disk: its file is deleted.
    /// Nothing, if the user is not there.
    pub fn plan_delete_user(&self, user_id: &str) -> (plan: Vec<FileAction>)
        requires
            self.wf(),
        ensures
            plan_view(plan@) == if self@.users.dom().contains(user_id@) {
                seq![
                    FileActionView::RemoveFile {
                        path: user_file_path(
                            self@.data_dir,
                            self@.users[user_id@].org,
                            user_id@,
                        ),
                    },
                ]
            } else {
                Seq::<FileActionView>::empty()
            },
    {
        let mut plan: Vec<FileAction> = Vec::new();
        match self.users.get(user_id) {
            None => {
            },
            Some(current) => {
                let path = user_file(self.data_dir.as_str(), current.org.as_str(), user_id);
                plan.push(FileAction::RemoveFile { path });
                assert(plan_view(plan@) =~= seq![
                    FileActionView::RemoveFile {
                        path: user_file_path(
                            self@.data_dir,
                            self@.users[user_id@].org,
                            user_id@,
                        ),
                    },
                ]);
            },
        }
        plan
    }

    /// What replacing the registry means on disk: the whole document is
    /// written anew.
    pub fn plan_update_claims_registry(&self, new_registry: &ClaimsRegistry) -> (plan: Vec<
        FileAction,
    >)
        ensures
            plan_view(plan@) == self@.registry_write_steps(new_registry@),
    {
        atomic_write(
            registry_file(self.data_dir.as_str()),
            Document::Registry(new_registry.clone()),
        )
    }

    /// What defining the claim `key` means on disk: the whole registry, with
    /// the definition in it, is written anew.
    pub fn plan_add_claim(&self, key: &str, claim: &ClaimDefinition) -> (plan: Vec<FileAction>)
        ensures
            plan_view(plan@) == self@.registry_write_steps(self@.registry.insert(key@, claim@)),
    {
        let mut registry = self.claims_registry.clone();
        registry.insert(key.to_owned(), claim.clone());
        atomic_write(registry_file(self.data_dir.as_str()), Document::Registry(registry))
    }

    /// What replacing the definition of `key` means on disk.
    pub fn plan_update_claim(&self, key: &str, updated_claim: &ClaimDefinition) -> (result: Result<
        Vec<FileAction>,
        StorageError,
    >)
        ensures
            match self@.change_claim_error(key@, PersistOutcome::Persisted) {
                Some(error) => result == Err::<Vec<FileAction>, StorageError>(error),
                None => result.is_ok() && plan_view(result.unwrap()@)
                    == self@.registry_write_steps(self@.registry.insert(key@, updated_claim@)),
            },
    {
        if !self.claims_registry.contains_key(key) {
            return Err(StorageError::NotFound);
        }
        Ok(self.plan_add_claim(key, updated_claim))
    }

    /// What taking the definition of `key` out means on disk.
    pub fn plan_delete_claim(&self, key: &str) -> (result: Result<Vec<FileAction>, StorageError>)
        ensures
            match self@.change_claim_error(key@, PersistOutcome::Persisted) {
                Some(error) => result == Err::<Vec<FileAction>, StorageError>(error),
                None => result.is_ok() && plan_view(result.unwrap()@)
                    == self@.registry_write_steps(self@.registry.remove(key@)),
            },
    {
        if !self.claims_registry.contains_key(key) {
            return Err(StorageError::NotFound);
        }
        let mut registry = self.claims_registry.clone();
        let _ = registry.remove(key);
        Ok(atomic_write(registry_file(self.data_dir.as_str()), Document::Registry(registry)))
    }

    /// A store that holds `registry` and no record.
    pub fn new(
        data_dir: &str,
        auth_pid_file: &str,
        registry: ClaimsRegistry,
        now: Timestamp,
    ) -> (store:
        AdminStorage)
        ensures
            store.wf(),
            store@ == StorageView::empty(data_dir@, auth_pid_file@, registry@, now),
    {
        let store = AdminStorage {
            users: Table::new(),
            organizations: Table::new(),
            clients: Table::new(),
            claims_registry: registry,
            email_index: StringHashMap::new(),
            data_dir: data_dir.to_owned(),
            auth_pid_file: auth_pid_file.to_owned(),
            sync_state: DataSyncState { last_auth_reload: now, last_data_update: now },
        };
        store
    }

    /// Takes in a user that was read from disk. Says whether it joined.
    pub(crate) fn load_user(&mut self, user: User) -> (joined: bool)
        requires
            old(self).wf(),
        ensures
            final(self).wf(),
            joined == !(old(self)@.users.dom().contains(user@.id) || old(
                self,
            )@.email_index.dom().contains(user@.email)),
            final(self)@ == old(self)@.with_user_loaded(user@),
    {
        if self.users.contains_key(user.id.as_str()) || self.email_index.contains_key(
            user.email.as_str(),
        ) {
            return false;
        }
        proof {
            self.lemma_tables_wf();
        }
        self.email_index.insert(user.email.clone(), user.id.clone());
        self.users.insert(user.id.clone(), user);
        proof {
            let expected = old(self)@.with_user_loaded(user@);
            assert(self@.email_index =~= expected.email_index);
        }
        true
    }

    /// Takes in a client that was read from disk. Says whether it joined.
    pub(crate) fn load_client(&mut self, client: Client) -> (joined: bool)
        requires
            old(self).wf(),
        ensures
            final(self).wf(),
            joined == !old(self)@.clients.dom().contains(client@.client_id),
            final(self)@ == old(self)@.with_client_loaded(client@),
    {
        if self.clients.contains_key(client.client_id.as_str()) {
            return false;
        }
        proof {
            self.lemma_tables_wf();
        }
        self.clients.insert(client.client_id.clone(), client);
        true
    }

    /// Takes in an organization that was read from disk. Says whether it
    /// joined.
    pub(crate) fn load_organization(&mut self, organization: Organization) -> (joined: bool)
        requires
            old(self).wf(),
        ensures
            final(self).wf(),
            joined == !old(self)@.organizations.dom().contains(organization@.id),
            final(self)@ == old(self)@.with_organization_loaded(organization@),
    {
        if self.organizations.contains_key(organization.id.as_str()) {
            return false;
        }
        self.organizations.insert(organization.id.clone(), organization);
        true
    }

    /// A copy of the client collection.
    fn clients_snapshot(&self) -> (list: Vec<Client>)
        requires
            self.wf(),
        ensures
            list@.map_values(|r: Client| r@) == self@.client_list(),
    {
        let clients = self.get_all_clients();
        let mut out: Vec<Client> = Vec::new();
        let mut i: usize = 0;
        while i < clients.len()
            invariant
                i <= clients.len(),
                client_views(clients@) == self@.client_list(),
                out.len() == i,
                forall|j: int| 0 <= j < i ==> out[j]@ == self@.client_list()[j],
            decreases clients.len() - i,
        {
            out.push(clients[i].clone());
            i += 1;
        }
        out
    }

    /// A copy of the organization collection.
    fn organizations_snapshot(&self) -> (list: Vec<Organization>)
        requires
            self.wf(),
        ensures
            list@.map_values(|r: Organization| r@) == self@.organization_list(),
    {
        let organizations = self.get_all_organizations();
        let mut out: Vec<Organization> = Vec::new();
        let mut i: usize = 0;
        while i < organizations.len()
            invariant
                i <= organizations.len(),
                organization_views(organizations@) == self@.organization_list(),
                out.len() == i,
                forall|j: int| 0 <= j < i ==> out[j]@ == self@.organization_list()[j],
            decreases organizations.len() - i,
        {
            out.push(organizations[i].clone());
            i += 1;
        }
        out
    }

    /// What writing the whole store means on disk. For a data directory
    /// that is to be filled anew.
    pub fn plan_persist(&self) -> (plan: Vec<FileAction>)
        requires
            self.wf(),
        ensures
            plan_view(plan@) == self@.persist_steps(),
    {
        let mut plan = self.plan_update_claims_registry(&self.claims_registry);
        let ghost first = plan_view(plan@);
        let users = self.get_all_users();
        let ghost listing = self@.user_list();
        let mut i: usize = 0;
        while i < users.len()
            invariant
                i <= users.len(),
                user_views(users@) == listing,
                plan_view(plan@) == first + users_write_steps(
                    self@.data_dir,
                    listing.take(i as int),
                ),
            decreases users.len() - i,
        {
            let mut steps = persist_user(self.data_dir.as_str(), users[i]);
            proof {
                assert(listing.take(i + 1).drop_last() =~= listing.take(i as int));
                assert(plan_view(plan@ + steps@) =~= plan_view(plan@) + plan_view(steps@));
            }
            plan.append(&mut steps);
            i += 1;
        }
        assert(listing.take(i as int) =~= listing);
        let mut clients = atomic_write(
            clients_file(self.data_dir.as_str()),
            Document::Clients(self.clients_snapshot()),
        );
        let mut organizations = atomic_write(
            organizations_file(self.data_dir.as_str()),
            Document::Organizations(self.organizations_snapshot()),
        );
        plan.append(&mut clients);
        plan.append(&mut organizations);
        plan
    }

    pub fn users_count(&self) -> (count: usize)
        ensures
            count == self@.user_ids.len(),
    {
        self.users.len()
    }

    pub fn clients_count(&self) -> (count: usize)
        ensures
            count == self@.client_ids.len(),
    {
        self.clients.len()
    }

    pub fn organizations_count(&self) -> (count: usize)
        ensures
            count == self@.organization_ids.len(),
    {
        self.organizations.len()
    }
}

/// The client collection that is written when client is added is the
/// collection that the store holds once the change is made.
pub proof fn lemma_added_client_is_written(store: StorageView, client: ClientView, now: Timestamp)
    requires
        store.wf(),
        !store.clients.dom().contains(client.client_id),
    ensures
        store.with_client_added(client, now).client_list() == store.client_list().push(client),
{
}

/// The client collection that is written when a record is replaced is the
/// collection that the store holds once the change is made.
pub proof fn lemma_replaced_client_is_written(
    store: StorageView,
    client_id: Seq<char>,
    client: ClientView,
    now: Timestamp,
)
    requires
        store.wf(),
        store.clients.dom().contains(client_id),
    ensures
        store.with_client_replaced(client_id, client, now).client_list() == store.client_list_with(
            client_id,
            Some(ClientView { client_id, ..client }),
        ),
{
    let stored = ClientView { client_id, ..client };
    let pick = store.client_or(client_id, Some(stored));
    let direct = |key: Seq<char>|
        if key == client_id {
            stored
        } else {
            store.clients[key]
        };
    lemma_filter_map_total(store.client_ids, pick, direct);
}

/// The client collection that is written when a record is removed is the
/// collection that the store holds once the change is made.
pub proof fn lemma_removed_client_is_written(
    store: StorageView,
    client_id: Seq<char>,
    now: Timestamp,
)
    requires
        store.wf(),
        store.clients.dom().contains(client_id),
    ensures
        store.with_client_removed(client_id, now).client_list() ==
            store.client_list_with(client_id, None),
{
    let pick = store.client_or(client_id, None);
    let direct = |key: Seq<char>| store.clients[key];
    lemma_filter_map_skip_one(store.client_ids, client_id, pick, direct);
}

/// The organization collection that is written when organization is added is the
/// collection that the store holds once the change is made.
pub proof fn lemma_added_organization_is_written(
    store: StorageView,
    organization: OrganizationView,
    now: Timestamp,
)
    requires
        store.wf(),
        !store.organizations.dom().contains(organization.id),
    ensures
        store.with_organization_added(organization, now).organization_list() ==
            store.organization_list().push(organization),
{
}

/// The organization collection that is written when a record is replaced is the
/// collection that the store holds once the change is made.
pub proof fn lemma_replaced_organization_is_written(
    store: StorageView,
    id: Seq<char>,
    organization: OrganizationView,
    now: Timestamp,
)
    requires
        store.wf(),
        store.organizations.dom().contains(id),
    ensures
        store.with_organization_replaced(id, organization, now).organization_list() ==
            store.organization_list_with(
            id,
            Some(OrganizationView { id, ..organization }),
        ),
{
    let stored = OrganizationView { id, ..organization };
    let pick = store.organization_or(id, Some(stored));
    let direct = |key: Seq<char>|
        if key == id {
            stored
        } else {
            store.organizations[key]
        };
    lemma_filter_map_total(store.organization_ids, pick, direct);
}

/// The organization collection that is written when a record is removed is the
/// collection that the store holds once the change is made.
pub proof fn lemma_removed_organization_is_written(
    store: StorageView,
    id: Seq<char>,
    now: Timestamp,
)
    requires
        store.wf(),
        store.organizations.dom().contains(id),
    ensures
        store.with_organization_removed(id, now).organization_list() ==
            store.organization_list_with(id, None),
{
    let pick = store.organization_or(id, None);
    let direct = |key: Seq<char>| store.organizations[key];
    lemma_filter_map_skip_one(store.organization_ids, id, pick, direct);
}

/// A change that comes after the last reload makes the data stale, and a
/// reload that does not come before the last change makes it fresh again.
pub proof fn lemma_staleness(store: StorageView, now: Timestamp)
    ensures
        now.is_after(store.sync_state.last_auth_reload) ==> store.touched(now).is_auth_stale(),
        !store.sync_state.last_data_update.is_after(now) ==> !(StorageView {
            sync_state: DataSyncState { last_auth_reload: now, ..store.sync_state },
            ..store
        }).is_auth_stale(),
{
}

/// No two users of a well-formed store share an email.
pub proof fn lemma_emails_are_unique(store: StorageView, a: Seq<char>, b: Seq<char>)
    requires
        store.wf(),
        store.users.dom().contains(a),
        store.users.dom().contains(b),
        store.users[a].email == store.users[b].email,
    ensures
        a == b,
{
}

/// The files of one user under two organizations are two files.
pub proof fn lemma_user_file_follows_org(
    data_dir: Seq<char>,
    org: Seq<char>,
    other_org: Seq<char>,
    id: Seq<char>,
)
    requires
        org != other_org,
    ensures
        user_file_path(data_dir, org, id) != user_file_path(data_dir, other_org, id),
{
    let a = user_file_path(data_dir, org, id);
    let b = user_file_path(data_dir, other_org, id);
    let prefix = data_dir + "/users/"@;
    if a == b {
        assert(a.len() == prefix.len() + org.len() + 1 + id.len() + ".json"@.len()) by {
            reveal_strlit("/");
        }
        assert(a.subrange(prefix.len() as int, (prefix.len() + org.len()) as int) =~= org);
        assert(b.subrange(prefix.len() as int, (prefix.len() + other_org.len()) as int)
            =~= other_org);
    }
}

/// The files after every step of a plan, where each `WriteFile` leaves
/// `written` at its path.
pub open spec fn files_after_all(
    files: Files,
    steps: Seq<FileActionView>,
    written: Seq<u8>,
) -> Files
    decreases steps.len(),
{
    if steps.len() == 0 {
        files
    } else {
        files_after(files_after_all(files, steps.drop_last(), written), steps.last(), written)
    }
}

/// A user whose organization changes moves: once the plan of the update is
/// carried out, the user's file lies under the new organization and no
/// longer under the old one.
pub proof fn lemma_updated_user_moves(
    store: StorageView,
    user_id: Seq<char>,
    user: UserView,
    files: Files,
    written: Seq<u8>,
)
    requires
        store.users.dom().contains(user_id),
        store.users[user_id].org != user.org,
    ensures
        ({
            let after = files_after_all(files, store.user_move_steps(user_id, user), written);
            &&& after.dom().contains(user_file_path(store.data_dir, user.org, user_id))
            &&& after[user_file_path(store.data_dir, user.org, user_id)] == written
            &&& !after.dom().contains(
                user_file_path(store.data_dir, store.users[user_id].org, user_id),
            )
        }),
{
    let old_org = store.users[user_id].org;
    let steps = store.user_move_steps(user_id, user);
    lemma_user_file_follows_org(store.data_dir, old_org, user.org, user_id);
    let s3 = steps.drop_last();
    let s2 = s3.drop_last();
    let f2 = files_after_all(files, s2, written);
    let f3 = files_after_all(files, s3, written);
}

/// An update that changes a user's organization relocates the user. Where
/// the store holds the user, the new record names another organization, and
/// its email is no other user's, the update is not refused. Its plan makes
/// the new organization's directory, writes the new record through a
/// temporary file to its place there, and ends by removing the file under
/// the old organization. Once the plan is carried out the user's file lies
/// under the new organization and no longer under the old one, and the
/// store holds the new record, under the user's identifier.
pub proof fn lemma_update_relocates_user(
    store: StorageView,
    user_id: Seq<char>,
    user: UserView,
    now: Timestamp,
    files: Files,
    written: Seq<u8>,
)
    requires
        store.users.dom().contains(user_id),
        store.users[user_id].org != user.org,
        store.email_index.dom().contains(user.email) ==> store.email_index[user.email] == user_id,
    ensures
        ({
            let stored = UserView { id: user_id, ..user };
            let steps = store.user_move_steps(user_id, user);
            let new_path = user_file_path(store.data_dir, user.org, user_id);
            let old_path = user_file_path(store.data_dir, store.users[user_id].org, user_id);
            let after = store.with_user_replaced(user_id, user, now);
            let on_disk = files_after_all(files, steps, written);
            &&& store.update_user_error(user_id, user, PersistOutcome::Persisted) is None
            &&& steps == seq![
                FileActionView::CreateDirAll { path: org_dir_path(store.data_dir, user.org) },
                FileActionView::WriteFile {
                    path: temp_path(new_path),
                    document: DocumentView::User(stored),
                },
                FileActionView::Rename { from: temp_path(new_path), to: new_path },
                FileActionView::RemoveFile { path: old_path },
            ]
            &&& user.id == user_id ==> stored == user
            &&& after.users.dom().contains(user_id)
            &&& after.users[user_id] == stored
            &&& after.users[user_id].org == user.org
            &&& on_disk.dom().contains(new_path)
            &&& on_disk[new_path] == written
            &&& !on_disk.dom().contains(old_path)
        }),
{
    lemma_updated_user_moves(store, user_id, user, files, written);
    let steps = store.user_move_steps(user_id, user);
    let stored = UserView { id: user_id, ..user };
    let new_path = user_file_path(store.data_dir, user.org, user_id);
    let old_path = user_file_path(store.data_dir, store.users[user_id].org, user_id);
    assert(steps =~= seq![
        FileActionView::CreateDirAll { path: org_dir_path(store.data_dir, user.org) },
        FileActionView::WriteFile {
            path: temp_path(new_path),
            document: DocumentView::User(stored),
        },
        FileActionView::Rename { from: temp_path(new_path), to: new_path },
        FileActionView::RemoveFile { path: old_path },
    ]);
}

} // verus!
