//! The records of the store and their mathematical views.

use crate::entries::{entries_map, entry_pairs, lookup, Entry};
use crate::outside::{clock_now, random_uuid_simple};
use crate::seqs::lemma_filter_map_next;
use crate::text::{
    contains_ignoring_case, contains_str, is_substring, lowercase_of, str_eq, to_lowercase,
};
use vstd::prelude::*;

verus! {

/// An instant with the UTC offset it was written at.
#[derive(Clone, Copy, Debug, PartialEq, Eq, Structural)]
pub struct Timestamp {
    /// Whole seconds since the Unix epoch.
    pub seconds: i64,
    /// Nanoseconds within the second.
    pub nanos: u32,
    /// Offset from UTC, in seconds.
    pub offset_seconds: i32,
}

impl Timestamp {
    /// This instant is strictly later than `other`.
    pub open spec fn is_after(self, other: Timestamp) -> bool {
        self.seconds > other.seconds || (self.seconds == other.seconds && self.nanos
            > other.nanos)
    }

    /// Whether this instant is strictly later than `other`.
    pub fn after(&self, other: &Timestamp) -> (later: bool)
        ensures
            later == self.is_after(*other),
    {
        self.seconds > other.seconds || (self.seconds == other.seconds && self.nanos
            > other.nanos)
    }
}

#[derive(Clone, Copy, Debug, PartialEq, Eq, Structural)]
pub enum UserStatus {
    Active,
    Inactive,
    Suspended,
}

#[derive(Clone, Copy, Debug, PartialEq, Eq, Structural)]
pub enum ClientType {
    Public,
    Confidential,
}

/// One element of a list-valued claim.
#[derive(Debug)]
pub enum ClaimItem {
    /// A string.
    Text(String),
    /// Any other JSON value, kept as its JSON text.
    Json(String),
}

/// The value of a custom claim, as far as the rules look into it: a string,
/// a list, or some other JSON value that is carried along as its text.
#[derive(Debug)]
pub enum ClaimValue {
    Text(String),
    List(Vec<ClaimItem>),
    Json(String),
}

pub enum ClaimItemView {
    Text(Seq<char>),
    Json(Seq<char>),
}

pub enum ClaimValueView {
    Text(Seq<char>),
    List(Seq<ClaimItemView>),
    Json(Seq<char>),
}

impl View for ClaimItem {
    type V = ClaimItemView;

    open spec fn view(&self) -> ClaimItemView {
        match self {
            ClaimItem::Text(t) => ClaimItemView::Text(t@),
            ClaimItem::Json(j) => ClaimItemView::Json(j@),
        }
    }
}

impl View for ClaimValue {
    type V = ClaimValueView;

    open spec fn view(&self) -> ClaimValueView {
        match self {
            ClaimValue::Text(t) => ClaimValueView::Text(t@),
            ClaimValue::List(items) => ClaimValueView::List(
                items@.map_values(|i: ClaimItem| i@),
            ),
            ClaimValue::Json(j) => ClaimValueView::Json(j@),
        }
    }
}

impl Clone for ClaimItem {
    fn clone(&self) -> (copy: Self)
        ensures
            copy@ == self@,
    {
        match self {
            ClaimItem::Text(t) => ClaimItem::Text(t.clone()),
            ClaimItem::Json(j) => ClaimItem::Json(j.clone()),
        }
    }
}

impl Clone for ClaimValue {
    fn clone(&self) -> (copy: Self)
        ensures
            copy@ == self@,
    {
        match self {
            ClaimValue::Text(t) => ClaimValue::Text(t.clone()),
            ClaimValue::List(items) => {
                let mut out: Vec<ClaimItem> = Vec::new();
                let mut i: usize = 0;
                while i < items.len()
                    invariant
                        i <= items.len(),
                        out.len() == i,
                        forall|j: int| 0 <= j < i ==> out[j]@ == items[j]@,
                    decreases items.len() - i,
                {
                    out.push(items[i].clone());
                    i += 1;
                }
                assert(out@.map_values(|i: ClaimItem| i@) =~= items@.map_values(
                    |i: ClaimItem| i@,
                ));
                ClaimValue::List(out)
            },
            ClaimValue::Json(j) => ClaimValue::Json(j.clone()),
        }
    }
}

/// A copy of a list of strings.
pub fn clone_strings(list: &Vec<String>) -> (copy: Vec<String>)
    ensures
        copy.deep_view() == list.deep_view(),
{
    let mut out: Vec<String> = Vec::new();
    let mut i: usize = 0;
    while i < list.len()
        invariant
            i <= list.len(),
            out.len() == i,
            forall|j: int| 0 <= j < i ==> out[j]@ == list[j]@,
        decreases list.len() - i,
    {
        out.push(list[i].clone());
        i += 1;
    }
    out
}

/// A copy of a list of claims.
pub fn clone_claims(claims: &Vec<Entry<ClaimValue>>) -> (copy: Vec<Entry<ClaimValue>>)
    ensures
        entry_pairs(copy@) == entry_pairs(claims@),
{
    let mut out: Vec<Entry<ClaimValue>> = Vec::new();
    let mut i: usize = 0;
    while i < claims.len()
        invariant
            i <= claims.len(),
            out.len() == i,
            forall|j: int|
                0 <= j < i ==> out[j].key@ == claims[j].key@ && out[j].value@ == claims[j].value@,
        decreases claims.len() - i,
    {
        out.push(Entry { key: claims[i].key.clone(), value: claims[i].value.clone() });
        i += 1;
    }
    out
}

/// Whether `wanted` is one of the strings of `list`.
pub fn contains_string(list: &Vec<String>, wanted: &str) -> (found: bool)
    ensures
        found == list.deep_view().contains(wanted@),
{
    let mut i: usize = 0;
    while i < list.len()
        invariant
            i <= list.len(),
            forall|j: int| 0 <= j < i ==> list[j]@ != wanted@,
        decreases list.len() - i,
    {
        if str_eq(list[i].as_str(), wanted) {
            assert(list.deep_view()[i as int] == wanted@);
            return true;
        }
        i += 1;
    }
    assert forall|j: int| 0 <= j < list.deep_view().len() implies list.deep_view()[j]
        != wanted@ by {}
    false
}

/// A copy of a list of keyed texts.
pub fn clone_texts(list: &Vec<Entry<String>>) -> (copy: Vec<Entry<String>>)
    ensures
        entry_pairs(copy@) == entry_pairs(list@),
{
    let mut out: Vec<Entry<String>> = Vec::new();
    let mut i: usize = 0;
    while i < list.len()
        invariant
            i <= list.len(),
            out.len() == i,
            forall|j: int|
                0 <= j < i ==> out[j].key@ == list[j].key@ && out[j].value@ == list[j].value@,
        decreases list.len() - i,
    {
        out.push(Entry { key: list[i].key.clone(), value: list[i].value.clone() });
        i += 1;
    }
    out
}

/// A relying party that may ask for tokens.
#[derive(Debug)]
pub struct Client {
    pub client_id: String,
    /// Present for confidential clients only.
    pub client_secret_hash: Option<String>,
    pub name: String,
    pub client_type: ClientType,
    pub redirect_uris: Vec<String>,
    pub allowed_scopes: Vec<String>,
    pub require_pkce: bool,
    pub grant_types: Vec<String>,
    pub created_at: Timestamp,
}

pub struct ClientView {
    pub client_id: Seq<char>,
    pub client_secret_hash: Option<Seq<char>>,
    pub name: Seq<char>,
    pub client_type: ClientType,
    pub redirect_uris: Seq<Seq<char>>,
    pub allowed_scopes: Seq<Seq<char>>,
    pub require_pkce: bool,
    pub grant_types: Seq<Seq<char>>,
    pub created_at: Timestamp,
}

impl View for Client {
    type V = ClientView;

    open spec fn view(&self) -> ClientView {
        ClientView {
            client_id: self.client_id@,
            client_secret_hash: self.client_secret_hash.deep_view(),
            name: self.name@,
            client_type: self.client_type,
            redirect_uris: self.redirect_uris.deep_view(),
            allowed_scopes: self.allowed_scopes.deep_view(),
            require_pkce: self.require_pkce,
            grant_types: self.grant_types.deep_view(),
            created_at: self.created_at,
        }
    }
}

impl Clone for Client {
    fn clone(&self) -> (copy: Self)
        ensures
            copy@ == self@,
    {
        Client {
            client_id: self.client_id.clone(),
            client_secret_hash: self.client_secret_hash.clone(),
            name: self.name.clone(),
            client_type: self.client_type,
            redirect_uris: clone_strings(&self.redirect_uris),
            allowed_scopes: clone_strings(&self.allowed_scopes),
            require_pkce: self.require_pkce,
            grant_types: clone_strings(&self.grant_types),
            created_at: self.created_at,
        }
    }
}

/// A tenant.
#[derive(Debug)]
pub struct Organization {
    pub id: String,
    pub name: String,
    pub description: String,
    /// Free-form metadata: each value is kept as its JSON text.
    pub metadata: Vec<Entry<String>>,
    pub created_at: Timestamp,
}

pub struct OrganizationView {
    pub id: Seq<char>,
    pub name: Seq<char>,
    pub description: Seq<char>,
    pub metadata: Map<Seq<char>, Seq<char>>,
    pub created_at: Timestamp,
}

impl View for Organization {
    type V = OrganizationView;

    open spec fn view(&self) -> OrganizationView {
        OrganizationView {
            id: self.id@,
            name: self.name@,
            description: self.description@,
            metadata: entries_map(self.metadata@),
            created_at: self.created_at,
        }
    }
}

impl Clone for Organization {
    fn clone(&self) -> (copy: Self)
        ensures
            copy@ == self@,
    {
        Organization {
            id: self.id.clone(),
            name: self.name.clone(),
            description: self.description.clone(),
            metadata: clone_texts(&self.metadata),
            created_at: self.created_at,
        }
    }
}

/// Whether `needle` occurs in one of three texts.
pub fn occurs_in_any(needle: &str, first: &str, second: &str, third: &str) -> (found: bool)
    ensures
        found == (is_substring(needle@, first@) || is_substring(needle@, second@) || is_substring(
            needle@,
            third@,
        )),
{
    contains_str(first, needle) || contains_str(second, needle) || contains_str(third, needle)
}

/// A subject of the service.
#[derive(Debug)]
pub struct User {
    pub id: String,
    pub email: String,
    pub password_hash: String,
    pub first_name: String,
    pub last_name: String,
    pub status: UserStatus,
    pub verified: bool,
    /// Date of identity verification, if any.
    pub authenticated: Option<String>,
    /// Organizations the user administers, or the single scope `all`.
    pub admin: Vec<String>,
    /// Primary organization.
    pub org: String,
    /// Custom claims, by key.
    pub claims: Vec<Entry<ClaimValue>>,
    pub mfa_secret: Option<String>,
    pub created_at: Timestamp,
    pub updated_at: Timestamp,
}

pub struct UserView {
    pub id: Seq<char>,
    pub email: Seq<char>,
    pub password_hash: Seq<char>,
    pub first_name: Seq<char>,
    pub last_name: Seq<char>,
    pub status: UserStatus,
    pub verified: bool,
    pub authenticated: Option<Seq<char>>,
    pub admin: Seq<Seq<char>>,
    pub org: Seq<char>,
    pub claims: Map<Seq<char>, ClaimValueView>,
    pub mfa_secret: Option<Seq<char>>,
    pub created_at: Timestamp,
    pub updated_at: Timestamp,
}

impl View for User {
    type V = UserView;

    open spec fn view(&self) -> UserView {
        UserView {
            id: self.id@,
            email: self.email@,
            password_hash: self.password_hash@,
            first_name: self.first_name@,
            last_name: self.last_name@,
            status: self.status,
            verified: self.verified,
            authenticated: self.authenticated.deep_view(),
            admin: self.admin.deep_view(),
            org: self.org@,
            claims: entries_map(self.claims@),
            mfa_secret: self.mfa_secret.deep_view(),
            created_at: self.created_at,
            updated_at: self.updated_at,
        }
    }
}

impl Clone for User {
    fn clone(&self) -> (copy: Self)
        ensures
            copy@ == self@,
    {
        User {
            id: self.id.clone(),
            email: self.email.clone(),
            password_hash: self.password_hash.clone(),
            first_name: self.first_name.clone(),
            last_name: self.last_name.clone(),
            status: self.status,
            verified: self.verified,
            authenticated: self.authenticated.clone(),
            admin: clone_strings(&self.admin),
            org: self.org.clone(),
            claims: clone_claims(&self.claims),
            mfa_secret: self.mfa_secret.clone(),
            created_at: self.created_at,
            updated_at: self.updated_at,
        }
    }
}

/// The distinguished admin scope that stands for every organization.
pub open spec fn all_scope() -> Seq<char> {
    "all"@
}

/// The claim key under which a user's roles are kept.
pub open spec fn roles_key() -> Seq<char> {
    "roles"@
}

impl UserView {
    /// First and last name with one space between them.
    pub open spec fn full_name(self) -> Seq<char> {
        self.first_name + " "@ + self.last_name
    }

    /// The user holds some admin scope.
    pub open spec fn is_admin(self) -> bool {
        self.admin.len() > 0
    }

    /// The user holds the scope `all`.
    pub open spec fn has_all_scope(self) -> bool {
        self.admin.contains(all_scope())
    }

    /// The user administers `org`, by name or through the scope `all`.
    pub open spec fn is_admin_for_org(self, org: Seq<char>) -> bool {
        self.admin.contains(all_scope()) || self.admin.contains(org)
    }

    /// The strings of the list kept under the claim `roles`; empty where the
    /// claim is absent or is no list.
    pub open spec fn roles(self) -> Seq<Seq<char>> {
        if self.claims.dom().contains(roles_key()) {
            match self.claims[roles_key()] {
                ClaimValueView::List(items) => items.filter_map(
                    |item: ClaimItemView| text_of(item),
                ),
                _ => Seq::empty(),
            }
        } else {
            Seq::empty()
        }
    }
}

impl UserView {
    /// The free-text search: the query occurs, whatever the case of the
    /// letters, in the email, the first name or the last name.
    pub open spec fn matches_search(self, query: Seq<char>) -> bool {
        contains_ignoring_case(self.email, query) || contains_ignoring_case(
            self.first_name,
            query,
        ) || contains_ignoring_case(self.last_name, query)
    }

    /// The same search, for a query that is in lowercase form already.
    pub open spec fn matches_lowered(self, needle: Seq<char>) -> bool {
        is_substring(needle, lowercase_of(self.email)) || is_substring(
            needle,
            lowercase_of(self.first_name),
        ) || is_substring(needle, lowercase_of(self.last_name))
    }

    /// The user carries the claim `key` with the string `value`, either as
    /// the claim's value or as one of the strings of its list.
    pub open spec fn has_claim(self, key: Seq<char>, value: Seq<char>) -> bool {
        self.claims.dom().contains(key) && match self.claims[key] {
            ClaimValueView::Text(text) => text == value,
            ClaimValueView::List(items) => items.contains(ClaimItemView::Text(value)),
            ClaimValueView::Json(_) => false,
        }
    }
}

/// The string that a list item holds, if it is one.
pub open spec fn text_of(item: ClaimItemView) -> Option<Seq<char>> {
    match item {
        ClaimItemView::Text(t) => Some(t),
        ClaimItemView::Json(_) => None,
    }
}

impl User {
    /// A new active user with a fresh identifier, no admin scope and no
    /// claims, created now.
    pub fn new(
        email: String,
        password_hash: String,
        first_name: String,
        last_name: String,
        org: String,
    ) -> (user: User)
        ensures
            user.email == email,
            user.password_hash == password_hash,
            user.first_name == first_name,
            user.last_name == last_name,
            user.org == org,
            user.status == UserStatus::Active,
            !user.verified,
            user.authenticated.is_none(),
            user.admin@.len() == 0,
            user.claims@.len() == 0,
            user.mfa_secret.is_none(),
            user.created_at == user.updated_at,
            user.created_at.offset_seconds == 0,
            user.id@.len() >= 5,
            user.id@.subrange(0, 5) == "user-"@,
    {
        let now = clock_now();
        let suffix = random_uuid_simple();
        let mut id = String::new();
        id.append("user-");
        id.append(suffix.as_str());
        proof {
            reveal_strlit("user-");
        }
        User {
            id,
            email,
            password_hash,
            first_name,
            last_name,
            status: UserStatus::Active,
            verified: false,
            authenticated: None,
            admin: Vec::new(),
            org,
            claims: Vec::new(),
            mfa_secret: None,
            created_at: now,
            updated_at: now,
        }
    }

    pub fn full_name(&self) -> (name: String)
        ensures
            name@ == self@.full_name(),
    {
        let mut out = String::new();
        out.append(self.first_name.as_str());
        out.append(" ");
        out.append(self.last_name.as_str());
        out
    }

    pub fn is_admin(&self) -> (admin: bool)
        ensures
            admin == self@.is_admin(),
    {
        self.admin.len() > 0
    }

    /// Whether the user holds the scope `all`.
    pub fn has_all_scope(&self) -> (all: bool)
        ensures
            all == self@.has_all_scope(),
    {
        contains_string(&self.admin, "all")
    }

    pub fn is_admin_for_org(&self, org: &str) -> (admin: bool)
        ensures
            admin == self@.is_admin_for_org(org@),
    {
        contains_string(&self.admin, "all") || contains_string(&self.admin, org)
    }

    pub fn is_active(&self) -> (active: bool)
        ensures
            active == (self.status == UserStatus::Active),
    {
        match self.status {
            UserStatus::Active => true,
            _ => false,
        }
    }

    /// Whether `needle`, a query in lowercase form, occurs in the lowercase
    /// form of the email, the first name or the last name.
    pub fn matches_lowered(&self, needle: &str) -> (found: bool)
        ensures
            found == self@.matches_lowered(needle@),
    {
        let email = to_lowercase(self.email.as_str());
        let first_name = to_lowercase(self.first_name.as_str());
        let last_name = to_lowercase(self.last_name.as_str());
        occurs_in_any(needle, email.as_str(), first_name.as_str(), last_name.as_str())
    }

    /// Whether the free-text search for `query` finds this user.
    pub fn matches_search(&self, query: &str) -> (found: bool)
        ensures
            found == self@.matches_search(query@),
    {
        let needle = to_lowercase(query);
        self.matches_lowered(needle.as_str())
    }

    /// Whether the user carries the claim `key` with the string `value`.
    pub fn has_claim(&self, key: &str, value: &str) -> (found: bool)
        ensures
            found == self@.has_claim(key@, value@),
    {
        match lookup(&self.claims, key) {
            Some(ClaimValue::Text(text)) => str_eq(text.as_str(), value),
            Some(ClaimValue::List(items)) => {
                let ghost views = items@.map_values(|i: ClaimItem| i@);
                let mut i: usize = 0;
                while i < items.len()
                    invariant
                        i <= items.len(),
                        views == items@.map_values(|i: ClaimItem| i@),
                        self@.claims.dom().contains(key@),
                        self@.claims[key@] == ClaimValueView::List(views),
                        forall|j: int| 0 <= j < i ==> views[j] != ClaimItemView::Text(value@),
                    decreases items.len() - i,
                {
                    match &items[i] {
                        ClaimItem::Text(text) => {
                            if str_eq(text.as_str(), value) {
                                assert(views[i as int] == ClaimItemView::Text(value@));
                                return true;
                            }
                        },
                        ClaimItem::Json(_) => {},
                    }
                    i += 1;
                }
                false
            },
            _ => false,
        }
    }

    pub fn get_roles(&self) -> (roles: Vec<String>)
        ensures
            roles.deep_view() == self@.roles(),
    {
        let mut out: Vec<String> = Vec::new();
        match lookup(&self.claims, "roles") {
            Some(ClaimValue::List(items)) => {
                let ghost views = items@.map_values(|i: ClaimItem| i@);
                let ghost pick = |item: ClaimItemView| text_of(item);
                let mut i: usize = 0;
                while i < items.len()
                    invariant
                        i <= items.len(),
                        views == items@.map_values(|i: ClaimItem| i@),
                        pick == |item: ClaimItemView| text_of(item),
                        out.deep_view() == views.take(i as int).filter_map(pick),
                    decreases items.len() - i,
                {
                    proof {
                        lemma_filter_map_next(views, i as int, pick);
                    }
                    match &items[i] {
                        ClaimItem::Text(t) => {
                            out.push(t.clone());
                        },
                        ClaimItem::Json(_) => {},
                    }
                    i += 1;
                }
                assert(views.take(items.len() as int) =~= views);
            },
            _ => {
            },
        }
        out
    }
}

} // verus!
