//! Roles, and the roles of an installation that defines none.

use crate::load::LoadResult;
use crate::models::clone_strings;
use vstd::prelude::*;

verus! {

#[derive(Debug)]
pub struct Role {
    pub id: String,
    pub name: String,
    pub description: String,
    pub permissions: Vec<String>,
}

pub struct RoleView {
    pub id: Seq<char>,
    pub name: Seq<char>,
    pub description: Seq<char>,
    pub permissions: Seq<Seq<char>>,
}

impl View for Role {
    type V = RoleView;

    open spec fn view(&self) -> RoleView {
        RoleView {
            id: self.id@,
            name: self.name@,
            description: self.description@,
            permissions: self.permissions.deep_view(),
        }
    }
}

impl Clone for Role {
    fn clone(&self) -> (copy: Self)
        ensures
            copy@ == self@,
    {
        Role {
            id: self.id.clone(),
            name: self.name.clone(),
            description: self.description.clone(),
            permissions: clone_strings(&self.permissions),
        }
    }
}

/// The views of a list of roles.
pub open spec fn role_views(roles: Seq<Role>) -> Seq<RoleView> {
    roles.map_values(|r: Role| r@)
}

/// The three roles of an installation that defines none: an administrator
/// who may do everything, staff, and guardians who see what is their own.
pub open spec fn default_role_views() -> Seq<RoleView> {
    seq![
        RoleView {
            id: "admin"@,
            name: "Administrator"@,
            description: "Full system access"@,
            permissions: seq!["*"@],
        },
        RoleView {
            id: "staff"@,
            name: "Staff"@,
            description: "Staff member"@,
            permissions: seq!["participants:read"@, "attendance:read"@, "attendance:write"@],
        },
        RoleView {
            id: "guardian"@,
            name: "Guardian"@,
            description: "Parent or guardian"@,
            permissions: seq!["participants:read_own"@, "attendance:read_own"@],
        },
    ]
}

pub fn default_roles() -> (roles: Vec<Role>)
    ensures
        role_views(roles@) == default_role_views(),
{
    let mut admin_permissions: Vec<String> = Vec::new();
    admin_permissions.push("*".to_owned());
    assert(admin_permissions.deep_view() =~= seq!["*"@]);

    let mut staff_permissions: Vec<String> = Vec::new();
    staff_permissions.push("participants:read".to_owned());
    staff_permissions.push("attendance:read".to_owned());
    staff_permissions.push("attendance:write".to_owned());
    assert(staff_permissions.deep_view() =~= seq![
        "participants:read"@,
        "attendance:read"@,
        "attendance:write"@,
    ]);

    let mut guardian_permissions: Vec<String> = Vec::new();
    guardian_permissions.push("participants:read_own".to_owned());
    guardian_permissions.push("attendance:read_own".to_owned());
    assert(guardian_permissions.deep_view() =~= seq![
        "participants:read_own"@,
        "attendance:read_own"@,
    ]);

    let mut roles: Vec<Role> = Vec::new();
    roles.push(
        Role {
            id: "admin".to_owned(),
            name: "Administrator".to_owned(),
            description: "Full system access".to_owned(),
            permissions: admin_permissions,
        },
    );
    roles.push(
        Role {
            id: "staff".to_owned(),
            name: "Staff".to_owned(),
            description: "Staff member".to_owned(),
            permissions: staff_permissions,
        },
    );
    roles.push(
        Role {
            id: "guardian".to_owned(),
            name: "Guardian".to_owned(),
            description: "Parent or guardian".to_owned(),
            permissions: guardian_permissions,
        },
    );
    roles
}

/// The roles to go on with after the role document was read: its roles, or
/// the default roles where it could not be had.
pub fn load_roles(outcome: Result<Vec<Role>, String>) -> (result: LoadResult<Vec<Role>>)
    ensures
        match outcome {
            Ok(roles) => result == LoadResult::Success(roles),
            Err(error) => result is CorruptData && result->error == error && role_views(
                result->fallback@,
            ) == default_role_views(),
        },
{
    match outcome {
        Ok(roles) => LoadResult::Success(roles),
        Err(error) => LoadResult::CorruptData { error, fallback: default_roles() },
    }
}

} // verus!
