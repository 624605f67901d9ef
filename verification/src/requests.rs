//! What administrative requests ask of the records: new records made from a
//! request, changes laid over an existing record, and the listing of users.

use crate::credentials::{login_address, login_url};
use crate::entries::{entries_map, Entry};
use crate::models::{
    clone_claims, clone_strings, ClaimValue, ClaimValueView, Client, ClientType, ClientView,
    Organization, OrganizationView, Timestamp, User, UserStatus, UserView,
};
use crate::outside::random_uuid_simple;
use crate::password::{hash_password, password_check_of, PasswordCheck, PasswordError};
use crate::registry::{ClaimDefinition, ClaimDefinitionView};
use crate::seqs::lemma_filter_next;
use crate::storage::{user_views, AdminStorage};
use crate::text::{lowercase_of, str_eq, to_lowercase};
use vstd::prelude::*;

verus! {

/// The value of an optional field, or what stands where it is not given.
pub open spec fn given_or<T>(given: Option<T>, otherwise: T) -> T {
    match given {
        Some(value) => value,
        None => otherwise,
    }
}

/// The claims that an optional list of claims stands for.
pub open spec fn claims_given(given: Option<Vec<Entry<ClaimValue>>>) -> Option<
    Map<Seq<char>, ClaimValueView>,
> {
    match given {
        Some(claims) => Some(entries_map(claims@)),
        None => None,
    }
}

/// The metadata that an optional list of keyed texts stands for.
pub open spec fn metadata_given(given: Option<Vec<Entry<String>>>) -> Option<
    Map<Seq<char>, Seq<char>>,
> {
    match given {
        Some(metadata) => Some(entries_map(metadata@)),
        None => None,
    }
}

#[derive(Debug)]
pub struct CreateUserRequest {
    pub email: String,
    pub password: String,
    pub first_name: String,
    pub last_name: String,
    pub org: String,
    pub admin: Option<Vec<String>>,
    pub claims: Option<Vec<Entry<ClaimValue>>>,
}

impl CreateUserRequest {
    /// The user that the request asks for: active, unverified, with the
    /// admin scopes and claims of the request or none, and with the id, the
    /// password hash and the time that the caller supplies.
    pub fn into_user(self, id: String, password_hash: String, now: Timestamp) -> (user: User)
        ensures
            user@ == (UserView {
                id: id@,
                email: self.email@,
                password_hash: password_hash@,
                first_name: self.first_name@,
                last_name: self.last_name@,
                status: UserStatus::Active,
                verified: false,
                authenticated: None,
                admin: given_or(self.admin.deep_view(), Seq::empty()),
                org: self.org@,
                claims: given_or(claims_given(self.claims), Map::empty()),
                mfa_secret: None,
                created_at: now,
                updated_at: now,
            }),
    {
        let admin = match self.admin {
            Some(admin) => admin,
            None => {
                let none: Vec<String> = Vec::new();
                assert(none.deep_view() =~= Seq::<Seq<char>>::empty());
                none
            },
        };
        let claims = match self.claims {
            Some(claims) => claims,
            None => Vec::new(),
        };
        User {
            id,
            email: self.email,
            password_hash,
            first_name: self.first_name,
            last_name: self.last_name,
            status: UserStatus::Active,
            verified: false,
            authenticated: None,
            admin,
            org: self.org,
            claims,
            mfa_secret: None,
            created_at: now,
            updated_at: now,
        }
    }
}

#[derive(Debug)]
pub struct UpdateUserRequest {
    pub first_name: Option<String>,
    pub last_name: Option<String>,
    pub status: Option<UserStatus>,
    pub org: Option<String>,
    pub admin: Option<Vec<String>>,
    pub claims: Option<Vec<Entry<ClaimValue>>>,
}

impl UpdateUserRequest {
    /// Lays the request over `user`: every field that the request gives
    /// replaces the user's, every other field stays, and the time of the
    /// last update becomes `now`.
    pub fn apply(self, user: &mut User, now: Timestamp)
        ensures
            final(user)@ == (UserView {
                first_name: given_or(self.first_name.deep_view(), old(user)@.first_name),
                last_name: given_or(self.last_name.deep_view(), old(user)@.last_name),
                status: given_or(self.status, old(user)@.status),
                org: given_or(self.org.deep_view(), old(user)@.org),
                admin: given_or(self.admin.deep_view(), old(user)@.admin),
                claims: given_or(claims_given(self.claims), old(user)@.claims),
                updated_at: now,
                ..old(user)@
            }),
    {
        match self.first_name {
            Some(first_name) => {
                user.first_name = first_name;
            },
            None => {},
        }
        match self.last_name {
            Some(last_name) => {
                user.last_name = last_name;
            },
            None => {},
        }
        match self.status {
            Some(status) => {
                user.status = status;
            },
            None => {},
        }
        match self.admin {
            Some(admin) => {
                user.admin = admin;
            },
            None => {},
        }
        match self.org {
            Some(org) => {
                user.org = org;
            },
            None => {},
        }
        match self.claims {
            Some(claims) => {
                user.claims = claims;
            },
            None => {},
        }
        user.updated_at = now;
    }
}

/// A user as it is shown: everything but the password hash, the date of
/// identity verification and the second-factor secret.
#[derive(Debug)]
pub struct UserResponse {
    pub id: String,
    pub email: String,
    pub first_name: String,
    pub last_name: String,
    pub status: UserStatus,
    pub verified: bool,
    pub org: String,
    pub admin: Vec<String>,
    pub claims: Vec<Entry<ClaimValue>>,
    pub created_at: Timestamp,
    pub updated_at: Timestamp,
}

pub struct UserResponseView {
    pub id: Seq<char>,
    pub email: Seq<char>,
    pub first_name: Seq<char>,
    pub last_name: Seq<char>,
    pub status: UserStatus,
    pub verified: bool,
    pub org: Seq<char>,
    pub admin: Seq<Seq<char>>,
    pub claims: Map<Seq<char>, ClaimValueView>,
    pub created_at: Timestamp,
    pub updated_at: Timestamp,
}

impl View for UserResponse {
    type V = UserResponseView;

    open spec fn view(&self) -> UserResponseView {
        UserResponseView {
            id: self.id@,
            email: self.email@,
            first_name: self.first_name@,
            last_name: self.last_name@,
            status: self.status,
            verified: self.verified,
            org: self.org@,
            admin: self.admin.deep_view(),
            claims: entries_map(self.claims@),
            created_at: self.created_at,
            updated_at: self.updated_at,
        }
    }
}

/// What is shown of a user.
pub open spec fn shown(user: UserView) -> UserResponseView {
    UserResponseView {
        id: user.id,
        email: user.email,
        first_name: user.first_name,
        last_name: user.last_name,
        status: user.status,
        verified: user.verified,
        org: user.org,
        admin: user.admin,
        claims: user.claims,
        created_at: user.created_at,
        updated_at: user.updated_at,
    }
}

impl UserResponse {
    /// What is shown of `user`.
    pub fn of(user: &User) -> (response: UserResponse)
        ensures
            response@ == shown(user@),
    {
        UserResponse {
            id: user.id.clone(),
            email: user.email.clone(),
            first_name: user.first_name.clone(),
            last_name: user.last_name.clone(),
            status: user.status,
            verified: user.verified,
            org: user.org.clone(),
            admin: clone_strings(&user.admin),
            claims: clone_claims(&user.claims),
            created_at: user.created_at,
            updated_at: user.updated_at,
        }
    }
}

#[derive(Debug)]
pub struct CreateClientRequest {
    pub client_id: String,
    pub name: String,
    pub client_type: ClientType,
    pub redirect_uris: Vec<String>,
    pub allowed_scopes: Vec<String>,
    pub require_pkce: Option<bool>,
    pub grant_types: Option<Vec<String>>,
}

impl CreateClientRequest {
    /// Whether the client that the request asks for gets a secret: the
    /// confidential ones do.
    pub fn needs_secret(&self) -> (needed: bool)
        ensures
            needed == (self.client_type == ClientType::Confidential),
    {
        match self.client_type {
            ClientType::Confidential => true,
            ClientType::Public => false,
        }
    }

    /// The client that the request asks for. Where the request does not say,
    /// PKCE is not required and the one grant type is `authorization_code`.
    /// A public client carries no secret, whatever the caller supplies.
    pub fn into_client(self, client_secret_hash: Option<String>, now: Timestamp) -> (client: Client)
        ensures
            client@ == (ClientView {
                client_id: self.client_id@,
                client_secret_hash: if self.client_type == ClientType::Confidential {
                    client_secret_hash.deep_view()
                } else {
                    None
                },
                name: self.name@,
                client_type: self.client_type,
                redirect_uris: self.redirect_uris.deep_view(),
                allowed_scopes: self.allowed_scopes.deep_view(),
                require_pkce: given_or(self.require_pkce, false),
                grant_types: given_or(self.grant_types.deep_view(), seq!["authorization_code"@]),
                created_at: now,
            }),
    {
        let secret = match self.client_type {
            ClientType::Confidential => client_secret_hash,
            ClientType::Public => None,
        };
        let require_pkce = match self.require_pkce {
            Some(required) => required,
            None => false,
        };
        let grant_types = match self.grant_types {
            Some(grant_types) => grant_types,
            None => {
                let mut one: Vec<String> = Vec::new();
                one.push("authorization_code".to_owned());
                assert(one.deep_view() =~= seq!["authorization_code"@]);
                one
            },
        };
        Client {
            client_id: self.client_id,
            client_secret_hash: secret,
            name: self.name,
            client_type: self.client_type,
            redirect_uris: self.redirect_uris,
            allowed_scopes: self.allowed_scopes,
            require_pkce,
            grant_types,
            created_at: now,
        }
    }
}

/// A new client, and the secret it was given, if it was given one. The
/// secret is shown once and kept nowhere: the client holds its hash.
#[derive(Debug)]
pub struct NewClient {
    pub client: Client,
    pub client_secret: Option<String>,
}

/// The text that every client secret begins with.
pub open spec fn secret_prefix() -> Seq<char> {
    "cs_"@
}

/// A fresh random client secret.
pub fn generate_client_secret() -> (secret: String)
    ensures
        secret@.len() >= 3,
        secret@.subrange(0, 3) == secret_prefix(),
{
    let suffix = random_uuid_simple();
    let mut secret = String::new();
    secret.append("cs_");
    secret.append(suffix.as_str());
    proof {
        reveal_strlit("cs_");
    }
    secret
}

impl CreateClientRequest {
    /// Makes the client that the request asks for, with a fresh secret if it
    /// is a confidential one. Fails only where the secret cannot be hashed.
    pub fn create(self, now: Timestamp) -> (result: Result<NewClient, PasswordError>)
        ensures
            self.client_type == ClientType::Public ==> result is Ok,
            result is Ok ==> ({
                let made = result->Ok_0;
                &&& made.client_secret is Some == (self.client_type == ClientType::Confidential)
                &&& made.client@.client_secret_hash is Some == (self.client_type
                    == ClientType::Confidential)
                &&& made.client_secret is Some ==> made.client_secret->Some_0@.len() >= 3
                    && made.client_secret->Some_0@.subrange(0, 3) == secret_prefix()
                    && password_check_of(
                    made.client_secret->Some_0@,
                    made.client@.client_secret_hash->Some_0,
                ) == PasswordCheck::Valid
                &&& made.client@ == (ClientView {
                    client_id: self.client_id@,
                    client_secret_hash: made.client@.client_secret_hash,
                    name: self.name@,
                    client_type: self.client_type,
                    redirect_uris: self.redirect_uris.deep_view(),
                    allowed_scopes: self.allowed_scopes.deep_view(),
                    require_pkce: given_or(self.require_pkce, false),
                    grant_types: given_or(
                        self.grant_types.deep_view(),
                        seq!["authorization_code"@],
                    ),
                    created_at: now,
                })
            }),
    {
        if self.needs_secret() {
            let secret = generate_client_secret();
            match hash_password(secret.as_str()) {
                Err(error) => Err(error),
                Ok(hash) => Ok(
                    NewClient {
                        client: self.into_client(Some(hash), now),
                        client_secret: Some(secret),
                    },
                ),
            }
        } else {
            Ok(NewClient { client: self.into_client(None, now), client_secret: None })
        }
    }
}

#[derive(Debug)]
pub struct UpdateClientRequest {
    pub name: Option<String>,
    pub redirect_uris: Option<Vec<String>>,
    pub allowed_scopes: Option<Vec<String>>,
    pub require_pkce: Option<bool>,
    pub grant_types: Option<Vec<String>>,
}

impl UpdateClientRequest {
    /// Lays the request over `client`: every field that the request gives
    /// replaces the client's. Identifier, secret, type and time of creation
    /// are not for a request to change.
    pub fn apply(self, client: &mut Client)
        ensures
            final(client)@ == (ClientView {
                name: given_or(self.name.deep_view(), old(client)@.name),
                redirect_uris: given_or(
                    self.redirect_uris.deep_view(),
                    old(client)@.redirect_uris,
                ),
                allowed_scopes: given_or(
                    self.allowed_scopes.deep_view(),
                    old(client)@.allowed_scopes,
                ),
                require_pkce: given_or(self.require_pkce, old(client)@.require_pkce),
                grant_types: given_or(self.grant_types.deep_view(), old(client)@.grant_types),
                ..old(client)@
            }),
    {
        match self.name {
            Some(name) => {
                client.name = name;
            },
            None => {},
        }
        match self.redirect_uris {
            Some(redirect_uris) => {
                client.redirect_uris = redirect_uris;
            },
            None => {},
        }
        match self.allowed_scopes {
            Some(allowed_scopes) => {
                client.allowed_scopes = allowed_scopes;
            },
            None => {},
        }
        match self.require_pkce {
            Some(require_pkce) => {
                client.require_pkce = require_pkce;
            },
            None => {},
        }
        match self.grant_types {
            Some(grant_types) => {
                client.grant_types = grant_types;
            },
            None => {},
        }
    }
}

/// Gives a confidential client a new secret. A public client has no secret
/// to rotate and stays as it is.
pub fn rotate_secret(client: &mut Client, new_secret_hash: String) -> (rotated: bool)
    ensures
        rotated == (old(client)@.client_type == ClientType::Confidential),
        final(client)@ == if rotated {
            ClientView { client_secret_hash: Some(new_secret_hash@), ..old(client)@ }
        } else {
            old(client)@
        },
{
    match client.client_type {
        ClientType::Confidential => {
            client.client_secret_hash = Some(new_secret_hash);
            true
        },
        ClientType::Public => false,
    }
}

#[derive(Debug)]
pub struct CreateOrganizationRequest {
    pub id: String,
    pub name: String,
    pub description: String,
    pub metadata: Option<Vec<Entry<String>>>,
}

impl CreateOrganizationRequest {
    /// The organization that the request asks for, created at `now`.
    pub fn into_organization(self, now: Timestamp) -> (organization: Organization)
        ensures
            organization@ == (OrganizationView {
                id: self.id@,
                name: self.name@,
                description: self.description@,
                metadata: given_or(metadata_given(self.metadata), Map::empty()),
                created_at: now,
            }),
    {
        let metadata = match self.metadata {
            Some(metadata) => metadata,
            None => Vec::new(),
        };
        Organization {
            id: self.id,
            name: self.name,
            description: self.description,
            metadata,
            created_at: now,
        }
    }
}

#[derive(Debug)]
pub struct UpdateOrganizationRequest {
    pub name: Option<String>,
    pub description: Option<String>,
    pub metadata: Option<Vec<Entry<String>>>,
}

impl UpdateOrganizationRequest {
    /// Lays the request over `organization`: every field that the request
    /// gives replaces the organization's.
    pub fn apply(self, organization: &mut Organization)
        ensures
            final(organization)@ == (OrganizationView {
                name: given_or(self.name.deep_view(), old(organization)@.name),
                description: given_or(
                    self.description.deep_view(),
                    old(organization)@.description,
                ),
                metadata: given_or(metadata_given(self.metadata), old(organization)@.metadata),
                ..old(organization)@
            }),
    {
        match self.name {
            Some(name) => {
                organization.name = name;
            },
            None => {},
        }
        match self.description {
            Some(description) => {
                organization.description = description;
            },
            None => {},
        }
        match self.metadata {
            Some(metadata) => {
                organization.metadata = metadata;
            },
            None => {},
        }
    }
}

#[derive(Debug)]
pub struct UpdateClaimRequest {
    pub claim_type: Option<String>,
    pub items: Option<String>,
    pub description: Option<String>,
    pub default_allowed: Option<bool>,
    pub required: Option<bool>,
    pub sensitive: Option<bool>,
    pub admin_only: Option<bool>,
}

/// The first of two optional values that is given.
pub open spec fn first_given<T>(given: Option<T>, otherwise: Option<T>) -> Option<T> {
    match given {
        Some(_) => given,
        None => otherwise,
    }
}

impl UpdateClaimRequest {
    /// Lays the request over `definition`: every field that the request
    /// gives replaces the definition's.
    pub fn apply(self, definition: &mut ClaimDefinition)
        ensures
            final(definition)@ == (ClaimDefinitionView {
                claim_type: given_or(self.claim_type.deep_view(), old(definition)@.claim_type),
                items: first_given(self.items.deep_view(), old(definition)@.items),
                description: given_or(self.description.deep_view(), old(definition)@.description),
                default_allowed: given_or(self.default_allowed, old(definition)@.default_allowed),
                required: first_given(self.required, old(definition)@.required),
                sensitive: first_given(self.sensitive, old(definition)@.sensitive),
                admin_only: first_given(self.admin_only, old(definition)@.admin_only),
            }),
    {
        match self.claim_type {
            Some(claim_type) => {
                definition.claim_type = claim_type;
            },
            None => {},
        }
        match self.items {
            Some(items) => {
                definition.items = Some(items);
            },
            None => {},
        }
        match self.description {
            Some(description) => {
                definition.description = description;
            },
            None => {},
        }
        match self.default_allowed {
            Some(default_allowed) => {
                definition.default_allowed = default_allowed;
            },
            None => {},
        }
        match self.required {
            Some(required) => {
                definition.required = Some(required);
            },
            None => {},
        }
        match self.sensitive {
            Some(sensitive) => {
                definition.sensitive = Some(sensitive);
            },
            None => {},
        }
        match self.admin_only {
            Some(admin_only) => {
                definition.admin_only = Some(admin_only);
            },
            None => {},
        }
    }
}

/// The state of the system, for a status page.
#[derive(Clone, Copy, Debug, PartialEq, Eq, Structural)]
pub struct SystemStatus {
    /// The data has changed since the token service was last told to read it.
    pub auth_data_stale: bool,
    pub last_auth_reload: Timestamp,
    pub last_data_update: Timestamp,
    pub users_count: usize,
    pub clients_count: usize,
    pub organizations_count: usize,
}

impl AdminStorage {
    /// The state of the system.
    pub fn system_status(&self) -> (status: SystemStatus)
        ensures
            status == (SystemStatus {
                auth_data_stale: self@.is_auth_stale(),
                last_auth_reload: self@.sync_state.last_auth_reload,
                last_data_update: self@.sync_state.last_data_update,
                users_count: self@.user_ids.len() as usize,
                clients_count: self@.client_ids.len() as usize,
                organizations_count: self@.organization_ids.len() as usize,
            }),
    {
        let sync = self.sync_state();
        SystemStatus {
            auth_data_stale: self.is_auth_stale(),
            last_auth_reload: sync.last_auth_reload,
            last_data_update: sync.last_data_update,
            users_count: self.users_count(),
            clients_count: self.clients_count(),
            organizations_count: self.organizations_count(),
        }
    }
}

/// Which audit events a query asks for, as the query string gives it.
#[derive(Debug)]
pub struct AuditQuery {
    pub user_id: Option<String>,
    pub event_type: Option<String>,
    pub from: Option<String>,
    pub to: Option<String>,
    /// How many events to show at most; fifty where it is not given.
    pub limit: Option<u32>,
}

impl AuditQuery {
    /// How many events the query shows at most.
    pub fn limit_or_default(&self) -> (limit: u32)
        ensures
            limit == given_or(self.limit, 50u32),
    {
        match self.limit {
            Some(limit) => limit,
            None => 50,
        }
    }
}

/// Which audit events a query asks for, as a request body gives it.
#[derive(Debug)]
pub struct AuditQueryRequest {
    pub user_id: Option<String>,
    pub event_type: Option<String>,
    pub from: Option<String>,
    pub to: Option<String>,
    pub limit: Option<u32>,
}

/// Where a browser wants to come back to after the login.
#[derive(Debug)]
pub struct LoginQuery {
    pub redirect: Option<String>,
}

/// The page that a login comes back to where the query names none.
pub open spec fn default_target() -> Seq<char> {
    "/dashboard"@
}

impl LoginQuery {
    /// The page on this service that the login is to come back to.
    pub fn target(&self) -> (target: &str)
        ensures
            target@ == given_or(self.redirect.deep_view(), default_target()),
    {
        match &self.redirect {
            Some(redirect) => redirect.as_str(),
            None => "/dashboard",
        }
    }
}

/// The address of the login page that a browser is sent to so that it comes
/// back to the page that `params` names.
pub fn login_redirect(params: &LoginQuery, auth_service_url: &str, base_url: &str) -> (url: String)
    ensures
        url@ == login_address(
            auth_service_url@,
            base_url@,
            given_or(params.redirect.deep_view(), default_target()),
        ),
{
    login_url(auth_service_url, base_url, params.target())
}

/// Which users a listing is to show.
#[derive(Debug)]
pub struct ListUsersQuery {
    /// Free text to look for in email and names.
    pub search: Option<String>,
    /// `active`, `inactive` or `suspended`; any other word shows every status.
    pub status: Option<String>,
    /// An admin scope that the users are to hold.
    pub role: Option<String>,
    /// The organization that the users are to belong to.
    pub group: Option<String>,
    /// How many users to show at most; a hundred where it is not given.
    pub limit: Option<u32>,
}

pub struct ListUsersQueryView {
    pub search: Option<Seq<char>>,
    pub status: Option<Seq<char>>,
    pub role: Option<Seq<char>>,
    pub group: Option<Seq<char>>,
    pub limit: Option<u32>,
}

impl View for ListUsersQuery {
    type V = ListUsersQueryView;

    open spec fn view(&self) -> ListUsersQueryView {
        ListUsersQueryView {
            search: self.search.deep_view(),
            status: self.status.deep_view(),
            role: self.role.deep_view(),
            group: self.group.deep_view(),
            limit: self.limit,
        }
    }
}

/// Whether a user of status `status` passes the status filter `word`.
pub open spec fn status_passes(word: Seq<char>, status: UserStatus) -> bool {
    if word == "active"@ {
        status == UserStatus::Active
    } else if word == "inactive"@ {
        status == UserStatus::Inactive
    } else if word == "suspended"@ {
        status == UserStatus::Suspended
    } else {
        true
    }
}

impl ListUsersQueryView {
    /// Whether the listing shows `user`, the limit aside.
    pub open spec fn shows(self, user: UserView) -> bool {
        &&& match self.search {
            Some(text) => user.matches_search(text),
            None => true,
        }
        &&& match self.status {
            Some(word) => status_passes(word, user.status),
            None => true,
        }
        &&& match self.role {
            Some(role) => user.is_admin_for_org(role),
            None => true,
        }
        &&& match self.group {
            Some(group) => user.org == group,
            None => true,
        }
    }

    /// The users that the listing shows, the limit aside.
    pub open spec fn selection(self) -> spec_fn(UserView) -> bool {
        |user: UserView| self.shows(user)
    }

    /// How many users the listing shows at most.
    pub open spec fn cap(self) -> nat {
        given_or(self.limit, 100u32) as nat
    }
}

/// The first `cap` elements of a sequence, or all of it where it is shorter.
pub open spec fn capped<A>(s: Seq<A>, cap: nat) -> Seq<A> {
    if cap <= s.len() {
        s.subrange(0, cap as int)
    } else {
        s
    }
}

/// Whether a user of status `status` passes the status filter `word`.
pub fn status_passes_filter(word: &str, status: UserStatus) -> (passes: bool)
    ensures
        passes == status_passes(word@, status),
{
    if str_eq(word, "active") {
        match status {
            UserStatus::Active => true,
            _ => false,
        }
    } else if str_eq(word, "inactive") {
        match status {
            UserStatus::Inactive => true,
            _ => false,
        }
    } else if str_eq(word, "suspended") {
        match status {
            UserStatus::Suspended => true,
            _ => false,
        }
    } else {
        true
    }
}

impl AdminStorage {
    /// The users that a listing shows: those that pass every filter of the
    /// query, in the order of the store, up to the limit.
    pub fn list_users(&self, query: &ListUsersQuery) -> (users: Vec<&User>)
        requires
            self.wf(),
        ensures
            user_views(users@) == capped(
                self@.user_list().filter(query@.selection()),
                query@.cap(),
            ),
    {
        let all = self.get_all_users();
        let needle = match &query.search {
            Some(text) => to_lowercase(text.as_str()),
            None => String::new(),
        };
        let ghost listing = self@.user_list();
        let ghost keep = query@.selection();
        let mut out: Vec<&User> = Vec::new();
        let mut i: usize = 0;
        while i < all.len()
            invariant
                i <= all.len(),
                user_views(all@) == listing,
                keep == query@.selection(),
                query@.search is Some ==> needle@ == lowercase_of(query@.search->Some_0),
                user_views(out@) == listing.take(i as int).filter(keep),
            decreases all.len() - i,
        {
            let user = all[i];
            proof {
                lemma_filter_next(listing, i as int, keep);
            }
            let by_search = match &query.search {
                Some(_) => user.matches_lowered(needle.as_str()),
                None => true,
            };
            let by_status = match &query.status {
                Some(word) => status_passes_filter(word.as_str(), user.status),
                None => true,
            };
            let by_role = match &query.role {
                Some(role) => user.is_admin_for_org(role.as_str()),
                None => true,
            };
            let by_group = match &query.group {
                Some(group) => str_eq(user.org.as_str(), group.as_str()),
                None => true,
            };
            if by_search && by_status && by_role && by_group {
                out.push(user);
            }
            i += 1;
        }
        assert(listing.take(i as int) =~= listing);
        let limit: usize = match query.limit {
            Some(limit) => limit as usize,
            None => 100,
        };
        out.truncate(limit);
        out
    }
}

} // verus!
