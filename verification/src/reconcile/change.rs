//! A correction: what it does to the unit's tally, the texts that describe
//! the entity before and after it, and the requests that carry it out.

use vstd::prelude::*;
use crate::types::{
    AccessLevel, MyProtectedAccessLevel, ProjectFeatureAccessLevel,
    ProjectFeatureAccessLevelPublic, ProjectMergeMethod,
};

verus! {

/// What a correction counts as in the tally of its unit.
#[derive(Debug, Clone, Copy, PartialEq, Eq, Structural)]
pub enum ChangeKind {
    Add,
    Change,
    Destroy,
}

/// Whether a membership is one of a group or one of a project.
#[derive(Debug, Clone, Copy, PartialEq, Eq, Structural)]
pub enum Scope {
    Group,
    Project,
}

/// The fields that an update of a project sets; a field that is absent is
/// left as it is.
#[derive(Debug, PartialEq, Eq)]
pub struct ProjectUpdate {
    pub description: Option<String>,
    pub request_access_enabled: Option<bool>,
    pub packages_enabled: Option<bool>,
    pub lfs_enabled: Option<bool>,
    pub service_desk_enabled: Option<bool>,
    pub issues_access_level: Option<ProjectFeatureAccessLevel>,
    pub merge_requests_access_level: Option<ProjectFeatureAccessLevel>,
    pub merge_method: Option<ProjectMergeMethod>,
    pub only_allow_merge_if_all_discussions_are_resolved: Option<bool>,
    pub builds_access_level: Option<ProjectFeatureAccessLevel>,
    pub container_registry_access_level: Option<ProjectFeatureAccessLevel>,
    pub snippets_access_level: Option<ProjectFeatureAccessLevel>,
    pub pages_access_level: Option<ProjectFeatureAccessLevelPublic>,
    pub requirements_access_level: Option<ProjectFeatureAccessLevel>,
    pub releases_access_level: Option<ProjectFeatureAccessLevel>,
    pub environments_access_level: Option<ProjectFeatureAccessLevel>,
    pub feature_flags_access_level: Option<ProjectFeatureAccessLevel>,
    pub infrastructure_access_level: Option<ProjectFeatureAccessLevel>,
    pub monitor_access_level: Option<ProjectFeatureAccessLevel>,
}

/// An update of a project, with its description as text.
pub struct ProjectUpdateView {
    pub description: Option<Seq<char>>,
    pub request_access_enabled: Option<bool>,
    pub packages_enabled: Option<bool>,
    pub lfs_enabled: Option<bool>,
    pub service_desk_enabled: Option<bool>,
    pub issues_access_level: Option<ProjectFeatureAccessLevel>,
    pub merge_requests_access_level: Option<ProjectFeatureAccessLevel>,
    pub merge_method: Option<ProjectMergeMethod>,
    pub only_allow_merge_if_all_discussions_are_resolved: Option<bool>,
    pub builds_access_level: Option<ProjectFeatureAccessLevel>,
    pub container_registry_access_level: Option<ProjectFeatureAccessLevel>,
    pub snippets_access_level: Option<ProjectFeatureAccessLevel>,
    pub pages_access_level: Option<ProjectFeatureAccessLevelPublic>,
    pub requirements_access_level: Option<ProjectFeatureAccessLevel>,
    pub releases_access_level: Option<ProjectFeatureAccessLevel>,
    pub environments_access_level: Option<ProjectFeatureAccessLevel>,
    pub feature_flags_access_level: Option<ProjectFeatureAccessLevel>,
    pub infrastructure_access_level: Option<ProjectFeatureAccessLevel>,
    pub monitor_access_level: Option<ProjectFeatureAccessLevel>,
}

impl View for ProjectUpdate {
    type V = ProjectUpdateView;

    open spec fn view(&self) -> ProjectUpdateView {
        ProjectUpdateView {
            description: match self.description {
                Some(text) => Some(text@),
                None => None,
            },
            request_access_enabled: self.request_access_enabled,
            packages_enabled: self.packages_enabled,
            lfs_enabled: self.lfs_enabled,
            service_desk_enabled: self.service_desk_enabled,
            issues_access_level: self.issues_access_level,
            merge_requests_access_level: self.merge_requests_access_level,
            merge_method: self.merge_method,
            only_allow_merge_if_all_discussions_are_resolved: self.only_allow_merge_if_all_discussions_are_resolved,
            builds_access_level: self.builds_access_level,
            container_registry_access_level: self.container_registry_access_level,
            snippets_access_level: self.snippets_access_level,
            pages_access_level: self.pages_access_level,
            requirements_access_level: self.requirements_access_level,
            releases_access_level: self.releases_access_level,
            environments_access_level: self.environments_access_level,
            feature_flags_access_level: self.feature_flags_access_level,
            infrastructure_access_level: self.infrastructure_access_level,
            monitor_access_level: self.monitor_access_level,
        }
    }
}

/// A request that changes something on the platform.
#[derive(Debug, PartialEq, Eq)]
pub enum Request {
    AddMember { scope: Scope, namespace: String, user: u64, access_level: AccessLevel },
    EditMember { scope: Scope, namespace: String, user: u64, access_level: AccessLevel },
    RemoveMember { scope: Scope, namespace: String, user: u64 },
    EditGroup { group: u64, request_access_enabled: bool },
    EditProject { project: u64, update: ProjectUpdate },
    UnprotectTag { project: u64, name: String },
    ProtectTag { project: u64, name: String, create_access_level: MyProtectedAccessLevel },
    UnprotectBranch { project: u64, name: String },
    ProtectBranch {
        project: u64,
        name: String,
        push_access_level: MyProtectedAccessLevel,
        merge_access_level: MyProtectedAccessLevel,
    },
}

/// A request, with its texts as sequences of characters.
pub enum RequestView {
    AddMember { scope: Scope, namespace: Seq<char>, user: u64, access_level: AccessLevel },
    EditMember { scope: Scope, namespace: Seq<char>, user: u64, access_level: AccessLevel },
    RemoveMember { scope: Scope, namespace: Seq<char>, user: u64 },
    EditGroup { group: u64, request_access_enabled: bool },
    EditProject { project: u64, update: ProjectUpdateView },
    UnprotectTag { project: u64, name: Seq<char> },
    ProtectTag { project: u64, name: Seq<char>, create_access_level: MyProtectedAccessLevel },
    UnprotectBranch { project: u64, name: Seq<char> },
    ProtectBranch {
        project: u64,
        name: Seq<char>,
        push_access_level: MyProtectedAccessLevel,
        merge_access_level: MyProtectedAccessLevel,
    },
}

impl View for Request {
    type V = RequestView;

    open spec fn view(&self) -> RequestView {
        match self {
            Request::AddMember { scope, namespace, user, access_level } => RequestView::AddMember {
                scope: *scope,
                namespace: namespace@,
                user: *user,
                access_level: *access_level,
            },
            Request::EditMember { scope, namespace, user, access_level } => RequestView::EditMember {
                scope: *scope,
                namespace: namespace@,
                user: *user,
                access_level: *access_level,
            },
            Request::RemoveMember { scope, namespace, user } => RequestView::RemoveMember {
                scope: *scope,
                namespace: namespace@,
                user: *user,
            },
            Request::EditGroup { group, request_access_enabled } => RequestView::EditGroup {
                group: *group,
                request_access_enabled: *request_access_enabled,
            },
            Request::EditProject { project, update } => RequestView::EditProject {
                project: *project,
                update: update@,
            },
            Request::UnprotectTag { project, name } => RequestView::UnprotectTag {
                project: *project,
                name: name@,
            },
            Request::ProtectTag { project, name, create_access_level } => RequestView::ProtectTag {
                project: *project,
                name: name@,
                create_access_level: *create_access_level,
            },
            Request::UnprotectBranch { project, name } => RequestView::UnprotectBranch {
                project: *project,
                name: name@,
            },
            Request::ProtectBranch {
                project,
                name,
                push_access_level,
                merge_access_level,
            } => RequestView::ProtectBranch {
                project: *project,
                name: name@,
                push_access_level: *push_access_level,
                merge_access_level: *merge_access_level,
            },
        }
    }
}

/// The requests held by a vector, as views.
pub open spec fn request_views(requests: Seq<Request>) -> Seq<RequestView> {
    requests.map_values(|request: Request| request@)
}

/// One correction of one entity.
#[derive(Debug, PartialEq, Eq)]
pub struct Change {
    pub kind: ChangeKind,
    /// The block that describes the entity as it is; empty where it is not
    /// there yet.
    pub before: String,
    /// The block that describes the entity as it should be; empty where it
    /// should not be there.
    pub after: String,
    /// The requests that make the entity what it should be, in order.
    pub requests: Vec<Request>,
}

/// A correction, with its texts as sequences of characters.
pub struct ChangeView {
    pub kind: ChangeKind,
    pub before: Seq<char>,
    pub after: Seq<char>,
    pub requests: Seq<RequestView>,
}

impl View for Change {
    type V = ChangeView;

    open spec fn view(&self) -> ChangeView {
        ChangeView {
            kind: self.kind,
            before: self.before@,
            after: self.after@,
            requests: request_views(self.requests@),
        }
    }
}

/// The view of a correction that may be absent.
pub open spec fn optional_view(change: Option<Change>) -> Option<ChangeView> {
    match change {
        Some(found) => Some(found@),
        None => None,
    }
}

/// The corrections held by a vector, as views.
pub open spec fn change_views(changes: Seq<Change>) -> Seq<ChangeView> {
    changes.map_values(|change: Change| change@)
}

} // verus!
