//! What the platform reports of its groups, projects, members and protection
//! rules, and the tally of one reconciled unit.

use vstd::prelude::*;
use vstd::string::*;
use crate::text::number::{decimal, decimal_string};

verus! {

broadcast use vstd::string::group_string_axioms;

/// A point in time with an offset from UTC, as the `time` crate holds it.
/// The library carries such a value and never looks into it.
#[verifier::external_type_specification]
#[verifier::external_body]
pub struct ExOffsetDateTime(time::OffsetDateTime);

/// The privilege of a member, from the least to the most.
#[derive(Debug, Clone, Copy, PartialEq, Eq, Structural)]
pub enum AccessLevel {
    Anonymous,
    Minimal,
    Guest,
    Reporter,
    Developer,
    Maintainer,
    Owner,
    Admin,
}

impl AccessLevel {
    /// The rank of the level: a higher rank includes more privilege.
    pub open spec fn rank(self) -> u64 {
        match self {
            Self::Admin => 60,
            Self::Owner => 50,
            Self::Maintainer => 40,
            Self::Developer => 30,
            Self::Reporter => 20,
            Self::Guest => 10,
            Self::Minimal => 5,
            Self::Anonymous => 0,
        }
    }

    /// The name of the level.
    pub open spec fn name(self) -> Seq<char> {
        match self {
            Self::Admin => "admin"@,
            Self::Owner => "owner"@,
            Self::Maintainer => "maintainer"@,
            Self::Developer => "developer"@,
            Self::Reporter => "reporter"@,
            Self::Guest => "guest"@,
            Self::Minimal => "minimal"@,
            Self::Anonymous => "anonymous"@,
        }
    }

    /// The rank of the level.
    pub fn as_u64(self) -> (rank: u64)
        ensures
            rank == self.rank(),
    {
        match self {
            Self::Admin => 60,
            Self::Owner => 50,
            Self::Maintainer => 40,
            Self::Developer => 30,
            Self::Reporter => 20,
            Self::Guest => 10,
            Self::Minimal => 5,
            Self::Anonymous => 0,
        }
    }

    /// The name, as the platform writes it.
    pub fn as_str(self) -> (name: &'static str)
        ensures
            name@ == self.name(),
    {
        match self {
            Self::Admin => "admin",
            Self::Owner => "owner",
            Self::Maintainer => "maintainer",
            Self::Developer => "developer",
            Self::Reporter => "reporter",
            Self::Guest => "guest",
            Self::Minimal => "minimal",
            Self::Anonymous => "anonymous",
        }
    }
}

/// The tally of one reconciled unit: how many corrections add, change and
/// destroy something.
#[derive(Debug)]
pub struct PlanSummary {
    pub name: String,
    pub add: u64,
    pub change: u64,
    pub destroy: u64,
}

/// The status line of a unit named `name` with the given counts.
pub open spec fn status_line(name: Seq<char>, add: nat, change: nat, destroy: nat) -> Seq<char> {
    if add == 0 && change == 0 && destroy == 0 {
        "No changes. "@ + name + " is up-to-date."@
    } else {
        name + " has changed!\nPlan: "@ + decimal(add) + " to add, "@ + decimal(change)
            + " to change, "@ + decimal(destroy) + " to destroy."@
    }
}

impl PlanSummary {
    /// The tally of the unit `name`, with nothing counted.
    pub fn new(name: &str) -> (summary: Self)
        ensures
            summary.name@ == name@,
            summary.add == 0,
            summary.change == 0,
            summary.destroy == 0,
    {
        Self { name: String::from_str(name), add: 0, change: 0, destroy: 0 }
    }

    /// Whether the unit needs no correction.
    pub fn is_up_to_date(&self) -> (clean: bool)
        ensures
            clean == (self.add == 0 && self.change == 0 && self.destroy == 0),
    {
        0 == self.add && 0 == self.change && 0 == self.destroy
    }

    /// The status line of the unit.
    pub fn to_string(&self) -> (line: String)
        ensures
            line@ == status_line(
                self.name@,
                self.add as nat,
                self.change as nat,
                self.destroy as nat,
            ),
    {
        if 0 == self.add && 0 == self.change && 0 == self.destroy {
            let mut line = String::from_str("No changes. ");
            line.append(self.name.as_str());
            line.append(" is up-to-date.");
            return line;
        }
        let mut line = self.name.clone();
        line.append(" has changed!\nPlan: ");
        line.append(decimal_string(self.add).as_str());
        line.append(" to add, ");
        line.append(decimal_string(self.change).as_str());
        line.append(" to change, ");
        line.append(decimal_string(self.destroy).as_str());
        line.append(" to destroy.");
        line
    }
}

/// How far a group protects the default branch of its new projects.
#[derive(Debug, Clone, Copy, PartialEq, Eq, Structural)]
pub enum GroupBranchProtection {
    /// Developers and maintainers may push, force push, and delete branches.
    Unprotected,
    /// Developers and maintainers may push branches.
    Partial,
    /// Maintainers may push branches.
    Full,
}

impl GroupBranchProtection {
    /// The name, as the platform writes it.
    pub open spec fn name(self) -> Seq<char> {
        match self {
            Self::Unprotected => "none"@,
            Self::Partial => "partial"@,
            Self::Full => "full"@,
        }
    }

    /// The name, as the platform writes it.
    pub fn as_str(self) -> (name: &'static str)
        ensures
            name@ == self.name(),
    {
        match self {
            Self::Unprotected => "none",
            Self::Partial => "partial",
            Self::Full => "full",
        }
    }
}

/// A group of the platform's hierarchy.
#[derive(Debug)]
pub struct Group {
    pub id: u64,
    pub name: String,
    pub full_name: String,
    pub path: String,
    pub full_path: String,
    pub request_access_enabled: bool,
    pub default_branch_protection: GroupBranchProtection,
}

/// Who may see a project.
#[derive(Debug, Clone, Copy, PartialEq, Eq, Structural)]
pub enum ProjectVisibilityLevel {
    /// The project is visible to anonymous users.
    Public,
    /// The project is visible to logged in users.
    Internal,
    /// The project is visible only to users with explicit access.
    Private,
}

impl ProjectVisibilityLevel {
    /// The name, as the platform writes it.
    pub open spec fn name(self) -> Seq<char> {
        match self {
            Self::Public => "public"@,
            Self::Internal => "internal"@,
            Self::Private => "private"@,
        }
    }

    /// The name, as the platform writes it.
    pub fn as_str(self) -> (name: &'static str)
        ensures
            name@ == self.name(),
    {
        match self {
            Self::Public => "public",
            Self::Internal => "internal",
            Self::Private => "private",
        }
    }
}

/// To whom a feature of a project is open.
#[derive(Debug, Clone, Copy, PartialEq, Eq, Structural)]
pub enum ProjectFeatureAccessLevel {
    /// The feature is not available at all.
    Disabled,
    /// The features is only available to project members.
    Private,
    /// The feature is available to everyone with access to the project.
    Enabled,
}

impl ProjectFeatureAccessLevel {
    /// The name, as the platform writes it.
    pub open spec fn name(self) -> Seq<char> {
        match self {
            Self::Disabled => "disabled"@,
            Self::Private => "private"@,
            Self::Enabled => "enabled"@,
        }
    }

    /// The name, as the platform writes it.
    pub fn as_str(self) -> (name: &'static str)
        ensures
            name@ == self.name(),
    {
        match self {
            Self::Disabled => "disabled",
            Self::Private => "private",
            Self::Enabled => "enabled",
        }
    }
}

/// To whom a feature of a project is open, where it can be open to all.
#[derive(Debug, Clone, Copy, PartialEq, Eq, Structural)]
pub enum ProjectFeatureAccessLevelPublic {
    /// The feature is not available at all.
    Disabled,
    /// The features is only available to project members.
    Private,
    /// The feature is available to everyone with access to the project.
    Enabled,
    /// The feature is publicly available regardless of project access.
    Public,
}

impl ProjectFeatureAccessLevelPublic {
    /// The name, as the platform writes it.
    pub open spec fn name(self) -> Seq<char> {
        match self {
            Self::Disabled => "disabled"@,
            Self::Private => "private"@,
            Self::Enabled => "enabled"@,
            Self::Public => "public"@,
        }
    }

    /// The name, as the platform writes it.
    pub fn as_str(self) -> (name: &'static str)
        ensures
            name@ == self.name(),
    {
        match self {
            Self::Disabled => "disabled",
            Self::Private => "private",
            Self::Enabled => "enabled",
            Self::Public => "public",
        }
    }
}

/// How merge requests are merged.
#[derive(Debug, Clone, Copy, PartialEq, Eq, Structural)]
pub enum ProjectMergeMethod {
    /// Always create a merge commit.
    Merge,
    /// Always create a merge commit, but require that the branch be fast-forward capable.
    RebaseMerge,
    /// Only fast-forward merges are allowed.
    FastForward,
}

impl ProjectMergeMethod {
    /// The name, as the platform writes it.
    pub open spec fn name(self) -> Seq<char> {
        match self {
            Self::Merge => "merge"@,
            Self::RebaseMerge => "rebase_merge"@,
            Self::FastForward => "ff"@,
        }
    }

    /// The name, as the platform writes it.
    pub fn as_str(self) -> (name: &'static str)
        ensures
            name@ == self.name(),
    {
        match self {
            Self::Merge => "merge",
            Self::RebaseMerge => "rebase_merge",
            Self::FastForward => "ff",
        }
    }
}

/// A project as a group lists it.
#[derive(Debug)]
pub struct GroupProjects {
    pub id: u64,
    pub archived: bool,
    pub updated_at: time::OffsetDateTime,
    pub name: String,
    pub name_with_namespace: String,
    pub path: String,
    pub path_with_namespace: String,
    pub description: Option<String>,
    pub visibility: ProjectVisibilityLevel,
    pub request_access_enabled: bool,
    pub packages_enabled: bool,
    pub lfs_enabled: bool,
    pub service_desk_enabled: bool,
    pub issues_access_level: ProjectFeatureAccessLevel,
    pub merge_requests_access_level: ProjectFeatureAccessLevel,
    pub merge_method: ProjectMergeMethod,
    pub only_allow_merge_if_all_discussions_are_resolved: bool,
    pub builds_access_level: ProjectFeatureAccessLevel,
    pub releases_access_level: ProjectFeatureAccessLevel,
    pub container_registry_access_level: ProjectFeatureAccessLevel,
    pub snippets_access_level: ProjectFeatureAccessLevel,
    pub pages_access_level: ProjectFeatureAccessLevelPublic,
    pub requirements_access_level: ProjectFeatureAccessLevel,
    pub environments_access_level: ProjectFeatureAccessLevel,
    pub feature_flags_access_level: ProjectFeatureAccessLevel,
    pub infrastructure_access_level: ProjectFeatureAccessLevel,
    pub monitor_access_level: ProjectFeatureAccessLevel,
}

/// The level that a protection rule asks of who performs the protected
/// action.
#[derive(Debug, Clone, Copy, PartialEq, Eq, Structural)]
pub enum MyProtectedAccessLevel {
    /// The action is not allowed at all.
    NoAccess,
    /// Developers and maintainers may perform the action.
    Developer,
    /// Maintainers may perform the action.
    Maintainer,
    /// Only administrators may perform the action.
    Admin,
}

impl MyProtectedAccessLevel {
    /// The name, as the platform writes it.
    pub open spec fn name(self) -> Seq<char> {
        match self {
            Self::Admin => "admin"@,
            Self::Maintainer => "maintainer"@,
            Self::Developer => "developer"@,
            Self::NoAccess => "no_access"@,
        }
    }

    /// The name, as the platform writes it.
    pub fn as_str(&self) -> (name: &'static str)
        ensures
            name@ == self.name(),
    {
        match self {
            Self::Admin => "admin",
            Self::Maintainer => "maintainer",
            Self::Developer => "developer",
            Self::NoAccess => "no_access",
        }
    }
}

/// The level that stands for a rank in a protection rule.
pub open spec fn protected_level(rank: u64) -> MyProtectedAccessLevel {
    if rank == 60 {
        MyProtectedAccessLevel::Admin
    } else if rank == 40 {
        MyProtectedAccessLevel::Maintainer
    } else if rank == 30 {
        MyProtectedAccessLevel::Developer
    } else {
        MyProtectedAccessLevel::NoAccess
    }
}

/// One entry of a protection rule, as the platform reports it.
#[derive(Debug)]
pub struct ProtectedAccessLevel {
    pub access_level: u64,
    pub access_level_description: String,
}

impl ProtectedAccessLevel {
    /// The words with which the platform describes the entry.
    pub fn as_str(&self) -> (description: &str)
        ensures
            description@ == self.access_level_description@,
    {
        self.access_level_description.as_str()
    }

    /// The level that the entry stands for.
    pub fn as_gitlab_type(&self) -> (level: MyProtectedAccessLevel)
        ensures
            level == protected_level(self.access_level),
    {
        match self.access_level {
            60 => MyProtectedAccessLevel::Admin,
            40 => MyProtectedAccessLevel::Maintainer,
            30 => MyProtectedAccessLevel::Developer,
            _ => MyProtectedAccessLevel::NoAccess,
        }
    }
}

/// The protection rule of a branch.
#[derive(Debug)]
pub struct ProtectedBranch {
    pub id: u64,
    pub name: String,
    pub push_access_levels: Vec<ProtectedAccessLevel>,
    pub merge_access_levels: Vec<ProtectedAccessLevel>,
}

/// The protection rule of a tag, or of a pattern of tags.
#[derive(Debug)]
pub struct ProtectedTag {
    pub name: String,
    pub create_access_levels: Vec<ProtectedAccessLevel>,
}

/// The levels that the protection of a branch should ask for.
#[derive(Debug)]
pub struct ProtectedAccess {
    pub name: String,
    pub push_access_level: MyProtectedAccessLevel,
    pub merge_access_level: MyProtectedAccessLevel,
}

/// A member of a group or of a project.
#[derive(Debug)]
pub struct GitLabMember {
    pub id: u64,
    pub username: String,
    pub name: String,
    pub email: Option<String>,
    pub access_level: u64,
}

/// A member, with its name as a sequence of characters.
pub struct Membership {
    pub id: u64,
    pub username: Seq<char>,
    pub access_level: u64,
}

impl View for GitLabMember {
    type V = Membership;

    open spec fn view(&self) -> Membership {
        Membership { id: self.id, username: self.username@, access_level: self.access_level }
    }
}

/// The members held by a vector, as views.
pub open spec fn memberships(members: Seq<GitLabMember>) -> Seq<Membership> {
    members.map_values(|member: GitLabMember| member@)
}

/// A user of the platform.
#[derive(Debug)]
pub struct GitLabUser {
    pub id: u64,
    pub username: String,
    pub name: String,
    pub email: Option<String>,
}

/// A file of a repository; its content is base64 text.
#[derive(Debug)]
pub struct File {
    pub content: String,
}

} // verus!
