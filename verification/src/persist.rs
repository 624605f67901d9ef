//! What a change to the store means on disk.
//!
//! The store never touches a file. It says what has to happen, as a list of
//! file actions, and whoever drives it carries them out in order and reports
//! whether all of them succeeded. A document always reaches its final path
//! through a temporary file beside it and a rename.

use crate::models::{Client, ClientView, Organization, OrganizationView, User, UserView};
use crate::registry::{ClaimDefinitionView, ClaimsRegistry};
use crate::text::{ends_with, is_suffix};
use vstd::prelude::*;

verus! {

/// A value to be written as one JSON document.
#[derive(Debug)]
pub enum Document {
    /// One user, alone in its file.
    User(User),
    /// The whole client collection, wrapped as `{"clients": [...]}`.
    Clients(Vec<Client>),
    /// The whole organization collection, wrapped as `{"orgs": [...]}`.
    Organizations(Vec<Organization>),
    /// The claims registry, a flat mapping from claim key to definition.
    Registry(ClaimsRegistry),
}

pub enum DocumentView {
    User(UserView),
    Clients(Seq<ClientView>),
    Organizations(Seq<OrganizationView>),
    Registry(Map<Seq<char>, ClaimDefinitionView>),
}

impl View for Document {
    type V = DocumentView;

    open spec fn view(&self) -> DocumentView {
        match self {
            Document::User(user) => DocumentView::User(user@),
            Document::Clients(clients) => DocumentView::Clients(
                clients@.map_values(|c: Client| c@),
            ),
            Document::Organizations(orgs) => DocumentView::Organizations(
                orgs@.map_values(|o: Organization| o@),
            ),
            Document::Registry(registry) => DocumentView::Registry(registry@),
        }
    }
}

/// One step for the driver to carry out.
#[derive(Debug)]
pub enum FileAction {
    /// Make sure the directory and its parents exist.
    CreateDirAll { path: String },
    /// Write the document, whole, to `path`.
    WriteFile { path: String, document: Document },
    /// Move `from` over `to` in one step.
    Rename { from: String, to: String },
    /// Delete the file if it is there.
    RemoveFile { path: String },
}

pub enum FileActionView {
    CreateDirAll { path: Seq<char> },
    WriteFile { path: Seq<char>, document: DocumentView },
    Rename { from: Seq<char>, to: Seq<char> },
    RemoveFile { path: Seq<char> },
}

impl View for FileAction {
    type V = FileActionView;

    open spec fn view(&self) -> FileActionView {
        match self {
            FileAction::CreateDirAll { path } => FileActionView::CreateDirAll { path: path@ },
            FileAction::WriteFile { path, document } => FileActionView::WriteFile {
                path: path@,
                document: document@,
            },
            FileAction::Rename { from, to } => FileActionView::Rename { from: from@, to: to@ },
            FileAction::RemoveFile { path } => FileActionView::RemoveFile { path: path@ },
        }
    }
}

/// The steps of a plan, as views.
pub open spec fn plan_view(plan: Seq<FileAction>) -> Seq<FileActionView> {
    plan.map_values(|a: FileAction| a@)
}

/// What the driver reports once it has gone through a plan.
#[derive(Clone, Copy, Debug, PartialEq, Eq, Structural)]
pub enum PersistOutcome {
    /// Every step succeeded.
    Persisted,
    /// Some step failed; the steps after it were not tried.
    Failed,
}

/// The directory that holds the users of `org`.
pub open spec fn org_dir_path(data_dir: Seq<char>, org: Seq<char>) -> Seq<char> {
    data_dir + "/users/"@ + org
}

/// The file of the user `id` of `org`.
pub open spec fn user_file_path(data_dir: Seq<char>, org: Seq<char>, id: Seq<char>) -> Seq<char> {
    org_dir_path(data_dir, org) + "/"@ + id + ".json"@
}

/// The client collection's document.
pub open spec fn clients_file_path(data_dir: Seq<char>) -> Seq<char> {
    data_dir + "/clients.json"@
}

/// The organization collection's document.
pub open spec fn organizations_file_path(data_dir: Seq<char>) -> Seq<char> {
    data_dir + "/orgs.json"@
}

/// The registry's document.
pub open spec fn registry_file_path(data_dir: Seq<char>) -> Seq<char> {
    data_dir + "/claims.json"@
}

/// Whether a file of this name, found in an organization's directory, is a
/// user file: its name ends in `.json` and has something before that.
pub open spec fn names_user_file(name: Seq<char>) -> bool {
    is_suffix(".json"@, name) && name.len() > ".json"@.len()
}

/// The temporary file through which `path` is written: a sibling of it.
pub open spec fn temp_path(path: Seq<char>) -> Seq<char> {
    path + ".tmp"@
}

/// Writing `document` to `path` without ever exposing a partial file: write
/// the temporary sibling, then rename it over the final path.
pub open spec fn atomic_write_steps(path: Seq<char>, document: DocumentView) -> Seq<
    FileActionView,
> {
    seq![
        FileActionView::WriteFile { path: temp_path(path), document },
        FileActionView::Rename { from: temp_path(path), to: path },
    ]
}

/// Persisting one user: make its organization's directory, then write its
/// file atomically.
pub open spec fn user_write_steps(data_dir: Seq<char>, user: UserView) -> Seq<FileActionView> {
    seq![FileActionView::CreateDirAll { path: org_dir_path(data_dir, user.org) }]
        + atomic_write_steps(user_file_path(data_dir, user.org, user.id), DocumentView::User(user))
}

/// Whether a file of this name, found in an organization's directory, is a
/// user file.
pub fn is_user_file_name(name: &str) -> (is_user_file: bool)
    ensures
        is_user_file == names_user_file(name@),
{
    ends_with(name, ".json") && name.unicode_len() > ".json".unicode_len()
}

pub fn org_dir(data_dir: &str, org: &str) -> (path: String)
    ensures
        path@ == org_dir_path(data_dir@, org@),
{
    let mut out = String::new();
    out.append(data_dir);
    out.append("/users/");
    out.append(org);
    out
}

pub fn user_file(data_dir: &str, org: &str, id: &str) -> (path: String)
    ensures
        path@ == user_file_path(data_dir@, org@, id@),
{
    let mut out = org_dir(data_dir, org);
    out.append("/");
    out.append(id);
    out.append(".json");
    out
}

pub fn clients_file(data_dir: &str) -> (path: String)
    ensures
        path@ == clients_file_path(data_dir@),
{
    let mut out = String::new();
    out.append(data_dir);
    out.append("/clients.json");
    out
}

pub fn organizations_file(data_dir: &str) -> (path: String)
    ensures
        path@ == organizations_file_path(data_dir@),
{
    let mut out = String::new();
    out.append(data_dir);
    out.append("/orgs.json");
    out
}

pub fn registry_file(data_dir: &str) -> (path: String)
    ensures
        path@ == registry_file_path(data_dir@),
{
    let mut out = String::new();
    out.append(data_dir);
    out.append("/claims.json");
    out
}

/// The plan that writes `document` to `path` atomically.
pub fn atomic_write(path: String, document: Document) -> (plan: Vec<FileAction>)
    ensures
        plan_view(plan@) == atomic_write_steps(path@, document@),
{
    let mut temp = path.clone();
    temp.append(".tmp");
    let from = temp.clone();
    let mut plan: Vec<FileAction> = Vec::new();
    plan.push(FileAction::WriteFile { path: temp, document });
    plan.push(FileAction::Rename { from, to: path });
    plan
}

/// The plan that persists one user under `data_dir`.
pub fn persist_user(data_dir: &str, user: &User) -> (plan: Vec<FileAction>)
    ensures
        plan_view(plan@) == user_write_steps(data_dir@, user@),
{
    let dir = org_dir(data_dir, user.org.as_str());
    let path = user_file(data_dir, user.org.as_str(), user.id.as_str());
    let mut temp = path.clone();
    temp.append(".tmp");
    let from = temp.clone();
    let mut plan: Vec<FileAction> = Vec::new();
    plan.push(FileAction::CreateDirAll { path: dir });
    plan.push(FileAction::WriteFile { path: temp, document: Document::User(user.clone()) });
    plan.push(FileAction::Rename { from, to: path });
    plan
}

/// The files of a directory tree, as far as this library cares: which paths
/// hold a file, and the bytes of each.
pub type Files = Map<Seq<char>, Seq<u8>>;

/// The files after one step, where a `WriteFile` leaves `written` at its
/// path. `written` is the whole document if the step ran to its end, and
/// anything at all if it was cut short.
pub open spec fn files_after(files: Files, step: FileActionView, written: Seq<u8>) -> Files {
    match step {
        FileActionView::CreateDirAll { .. } => files,
        FileActionView::WriteFile { path, .. } => files.insert(path, written),
        FileActionView::Rename { from, to } => if files.dom().contains(from) {
            files.remove(from).insert(to, files[from])
        } else {
            files
        },
        FileActionView::RemoveFile { path } => files.remove(path),
    }
}

/// The temporary file of a path is never the path itself.
pub proof fn lemma_temp_path_differs(path: Seq<char>)
    ensures
        temp_path(path) != path,
{
    reveal_strlit(".tmp");
}

/// An atomic write never shows a reader of the final path a partial file.
/// While the temporary file is being written, and if the write is cut short
/// with any bytes `partial` in it, the final path holds what it held before.
/// Once the rename is done, the final path holds the whole document and the
/// temporary file is gone.
pub proof fn lemma_atomic_write_is_all_or_nothing(
    files: Files,
    path: Seq<char>,
    document: DocumentView,
    content: Seq<u8>,
    partial: Seq<u8>,
)
    ensures
        ({
            let steps = atomic_write_steps(path, document);
            let interrupted = files_after(files, steps[0], partial);
            let written = files_after(files, steps[0], content);
            let renamed = files_after(written, steps[1], content);
            &&& interrupted.dom().contains(path) == files.dom().contains(path)
            &&& files.dom().contains(path) ==> interrupted[path] == files[path]
            &&& written.dom().contains(path) == files.dom().contains(path)
            &&& files.dom().contains(path) ==> written[path] == files[path]
            &&& renamed.dom().contains(path)
            &&& renamed[path] == content
            &&& !renamed.dom().contains(temp_path(path))
        }),
{
    lemma_temp_path_differs(path);
}

} // verus!
