//! The settings of a project, against the settings that every project, or
//! every packaging project, should have.

use vstd::prelude::*;
use vstd::string::*;
use crate::reconcile::change::{
    optional_view, Change, ChangeKind, ChangeView, ProjectUpdate, ProjectUpdateView, Request,
    RequestView,
};
use crate::text::str_starts_with;
use crate::types::{
    Group, GroupProjects, ProjectFeatureAccessLevel, ProjectFeatureAccessLevelPublic,
    ProjectMergeMethod,
};
use crate::util::{
    format_gitlab_group_settings, format_gitlab_project_settings, group_settings_text,
    project_settings_text,
};

verus! {

broadcast use vstd::string::group_string_axioms;

/// The description of a project; empty where it has none.
pub open spec fn description_of(project: GroupProjects) -> Seq<char> {
    match project.description {
        Some(text) => text@,
        None => Seq::empty(),
    }
}

/// The value that a field has once an update is carried out: the value that
/// the update sets, or the current one where it sets none.
pub open spec fn chosen<T>(update: Option<T>, current: T) -> T {
    match update {
        Some(value) => value,
        None => current,
    }
}

/// The update that every project gets: nobody may ask for access, a merge
/// waits for all discussions, and snippets are off.
pub open spec fn generic_profile() -> ProjectUpdateView {
    ProjectUpdateView {
        description: None,
        request_access_enabled: Some(false),
        packages_enabled: None,
        lfs_enabled: None,
        service_desk_enabled: None,
        issues_access_level: None,
        merge_requests_access_level: None,
        merge_method: None,
        only_allow_merge_if_all_discussions_are_resolved: Some(true),
        builds_access_level: None,
        container_registry_access_level: None,
        snippets_access_level: Some(ProjectFeatureAccessLevel::Disabled),
        pages_access_level: None,
        requirements_access_level: None,
        releases_access_level: None,
        environments_access_level: None,
        feature_flags_access_level: None,
        infrastructure_access_level: None,
        monitor_access_level: None,
    }
}

/// The update that a packaging project gets: every tracked field is set, the
/// description to `description`.
pub open spec fn packaging_profile(description: Seq<char>) -> ProjectUpdateView {
    ProjectUpdateView {
        description: Some(description),
        request_access_enabled: Some(false),
        packages_enabled: Some(false),
        lfs_enabled: Some(false),
        service_desk_enabled: Some(false),
        issues_access_level: Some(ProjectFeatureAccessLevel::Enabled),
        merge_requests_access_level: Some(ProjectFeatureAccessLevel::Enabled),
        merge_method: Some(ProjectMergeMethod::FastForward),
        only_allow_merge_if_all_discussions_are_resolved: Some(true),
        builds_access_level: Some(ProjectFeatureAccessLevel::Disabled),
        container_registry_access_level: Some(ProjectFeatureAccessLevel::Disabled),
        snippets_access_level: Some(ProjectFeatureAccessLevel::Disabled),
        pages_access_level: Some(ProjectFeatureAccessLevelPublic::Disabled),
        requirements_access_level: Some(ProjectFeatureAccessLevel::Disabled),
        releases_access_level: Some(ProjectFeatureAccessLevel::Disabled),
        environments_access_level: Some(ProjectFeatureAccessLevel::Disabled),
        feature_flags_access_level: Some(ProjectFeatureAccessLevel::Disabled),
        infrastructure_access_level: Some(ProjectFeatureAccessLevel::Disabled),
        monitor_access_level: Some(ProjectFeatureAccessLevel::Disabled),
    }
}

/// Whether `project` has every value that `update` sets.
pub open spec fn settled(project: GroupProjects, update: ProjectUpdateView) -> bool {
    &&& (update.description matches Some(text) ==> description_of(project) == text)
    &&& (update.request_access_enabled matches Some(value) ==> project.request_access_enabled == value)
    &&& (update.packages_enabled matches Some(value) ==> project.packages_enabled == value)
    &&& (update.lfs_enabled matches Some(value) ==> project.lfs_enabled == value)
    &&& (update.service_desk_enabled matches Some(value) ==> project.service_desk_enabled == value)
    &&& (update.issues_access_level matches Some(value) ==> project.issues_access_level == value)
    &&& (update.merge_requests_access_level matches Some(value) ==> project.merge_requests_access_level == value)
    &&& (update.merge_method matches Some(value) ==> project.merge_method == value)
    &&& (update.only_allow_merge_if_all_discussions_are_resolved matches Some(value) ==> project.only_allow_merge_if_all_discussions_are_resolved == value)
    &&& (update.builds_access_level matches Some(value) ==> project.builds_access_level == value)
    &&& (update.container_registry_access_level matches Some(value) ==> project.container_registry_access_level == value)
    &&& (update.snippets_access_level matches Some(value) ==> project.snippets_access_level == value)
    &&& (update.pages_access_level matches Some(value) ==> project.pages_access_level == value)
    &&& (update.requirements_access_level matches Some(value) ==> project.requirements_access_level == value)
    &&& (update.releases_access_level matches Some(value) ==> project.releases_access_level == value)
    &&& (update.environments_access_level matches Some(value) ==> project.environments_access_level == value)
    &&& (update.feature_flags_access_level matches Some(value) ==> project.feature_flags_access_level == value)
    &&& (update.infrastructure_access_level matches Some(value) ==> project.infrastructure_access_level == value)
    &&& (update.monitor_access_level matches Some(value) ==> project.monitor_access_level == value)
}

/// The block that describes the settings of `project` as they are.
pub open spec fn observed_settings_text(project: GroupProjects) -> Seq<char> {
    project_settings_text(
        project.path_with_namespace@,
        description_of(project),
        project.request_access_enabled,
        project.issues_access_level,
        project.merge_requests_access_level,
        project.merge_method,
        project.only_allow_merge_if_all_discussions_are_resolved,
        project.builds_access_level,
        project.container_registry_access_level,
        project.packages_enabled,
        project.snippets_access_level,
        project.lfs_enabled,
        project.service_desk_enabled,
        project.pages_access_level,
        project.requirements_access_level,
        project.releases_access_level,
        project.environments_access_level,
        project.feature_flags_access_level,
        project.infrastructure_access_level,
        project.monitor_access_level,
    )
}

/// The block that describes the settings of `project` once `update` is
/// carried out.
pub open spec fn expected_settings_text(project: GroupProjects, update: ProjectUpdateView) -> Seq<char> {
    project_settings_text(
        project.path_with_namespace@,
        chosen(update.description, description_of(project)),
        chosen(update.request_access_enabled, project.request_access_enabled),
        chosen(update.issues_access_level, project.issues_access_level),
        chosen(update.merge_requests_access_level, project.merge_requests_access_level),
        chosen(update.merge_method, project.merge_method),
        chosen(update.only_allow_merge_if_all_discussions_are_resolved, project.only_allow_merge_if_all_discussions_are_resolved),
        chosen(update.builds_access_level, project.builds_access_level),
        chosen(update.container_registry_access_level, project.container_registry_access_level),
        chosen(update.packages_enabled, project.packages_enabled),
        chosen(update.snippets_access_level, project.snippets_access_level),
        chosen(update.lfs_enabled, project.lfs_enabled),
        chosen(update.service_desk_enabled, project.service_desk_enabled),
        chosen(update.pages_access_level, project.pages_access_level),
        chosen(update.requirements_access_level, project.requirements_access_level),
        chosen(update.releases_access_level, project.releases_access_level),
        chosen(update.environments_access_level, project.environments_access_level),
        chosen(update.feature_flags_access_level, project.feature_flags_access_level),
        chosen(update.infrastructure_access_level, project.infrastructure_access_level),
        chosen(update.monitor_access_level, project.monitor_access_level),
    )
}

/// The correction of the settings of `project` towards `update`: none where
/// the project is settled, else one change that carries the whole update.
pub open spec fn settings_correction(
    project: GroupProjects,
    update: ProjectUpdateView,
) -> Option<ChangeView> {
    if settled(project, update) {
        None
    } else {
        Some(
            ChangeView {
                kind: ChangeKind::Change,
                before: observed_settings_text(project),
                after: expected_settings_text(project, update),
                requests: seq![RequestView::EditProject { project: project.id, update }],
            },
        )
    }
}

/// The update that every project gets.
pub fn generic_update() -> (update: ProjectUpdate)
    ensures
        update@ == generic_profile(),
{
    ProjectUpdate {
        description: None,
        request_access_enabled: Some(false),
        packages_enabled: None,
        lfs_enabled: None,
        service_desk_enabled: None,
        issues_access_level: None,
        merge_requests_access_level: None,
        merge_method: None,
        only_allow_merge_if_all_discussions_are_resolved: Some(true),
        builds_access_level: None,
        container_registry_access_level: None,
        snippets_access_level: Some(ProjectFeatureAccessLevel::Disabled),
        pages_access_level: None,
        requirements_access_level: None,
        releases_access_level: None,
        environments_access_level: None,
        feature_flags_access_level: None,
        infrastructure_access_level: None,
        monitor_access_level: None,
    }
}

/// The update that a packaging project gets.
pub fn packaging_update(description: &str) -> (update: ProjectUpdate)
    ensures
        update@ == packaging_profile(description@),
{
    ProjectUpdate {
        description: Some(String::from_str(description)),
        request_access_enabled: Some(false),
        packages_enabled: Some(false),
        lfs_enabled: Some(false),
        service_desk_enabled: Some(false),
        issues_access_level: Some(ProjectFeatureAccessLevel::Enabled),
        merge_requests_access_level: Some(ProjectFeatureAccessLevel::Enabled),
        merge_method: Some(ProjectMergeMethod::FastForward),
        only_allow_merge_if_all_discussions_are_resolved: Some(true),
        builds_access_level: Some(ProjectFeatureAccessLevel::Disabled),
        container_registry_access_level: Some(ProjectFeatureAccessLevel::Disabled),
        snippets_access_level: Some(ProjectFeatureAccessLevel::Disabled),
        pages_access_level: Some(ProjectFeatureAccessLevelPublic::Disabled),
        requirements_access_level: Some(ProjectFeatureAccessLevel::Disabled),
        releases_access_level: Some(ProjectFeatureAccessLevel::Disabled),
        environments_access_level: Some(ProjectFeatureAccessLevel::Disabled),
        feature_flags_access_level: Some(ProjectFeatureAccessLevel::Disabled),
        infrastructure_access_level: Some(ProjectFeatureAccessLevel::Disabled),
        monitor_access_level: Some(ProjectFeatureAccessLevel::Disabled),
    }
}

fn holds_flag(update: &Option<bool>, current: bool) -> (same: bool)
    ensures
        same == (*update matches Some(value) ==> current == value),
{
    match update {
        Some(value) => current == *value,
        None => true,
    }
}

fn holds_feature(update: &Option<ProjectFeatureAccessLevel>, current: ProjectFeatureAccessLevel) -> (same: bool)
    ensures
        same == (*update matches Some(value) ==> current == value),
{
    match update {
        Some(value) => current == *value,
        None => true,
    }
}

fn holds_pages(update: &Option<ProjectFeatureAccessLevelPublic>, current: ProjectFeatureAccessLevelPublic) -> (same: bool)
    ensures
        same == (*update matches Some(value) ==> current == value),
{
    match update {
        Some(value) => current == *value,
        None => true,
    }
}

fn holds_method(update: &Option<ProjectMergeMethod>, current: ProjectMergeMethod) -> (same: bool)
    ensures
        same == (*update matches Some(value) ==> current == value),
{
    match update {
        Some(value) => current == *value,
        None => true,
    }
}

fn choose_value<T: Copy>(update: &Option<T>, current: T) -> (value: T)
    ensures
        value == chosen(*update, current),
{
    match update {
        Some(value) => *value,
        None => current,
    }
}

/// The description of a project; empty where it has none.
pub fn project_description(project: &GroupProjects) -> (text: &str)
    ensures
        text@ == description_of(*project),
{
    proof {
        reveal_strlit("");
    }
    match &project.description {
        Some(text) => text.as_str(),
        None => "",
    }
}

/// Whether `project` has every value that `update` sets.
pub fn is_settled(project: &GroupProjects, update: &ProjectUpdate) -> (ok: bool)
    ensures
        ok == settled(*project, update@),
{
    let same_description = match &update.description {
        Some(text) => crate::text::same_str(project_description(project), text.as_str()),
        None => true,
    };
    let request_access_enabled = holds_flag(&update.request_access_enabled, project.request_access_enabled);
    let packages_enabled = holds_flag(&update.packages_enabled, project.packages_enabled);
    let lfs_enabled = holds_flag(&update.lfs_enabled, project.lfs_enabled);
    let service_desk_enabled = holds_flag(&update.service_desk_enabled, project.service_desk_enabled);
    let issues_access_level = holds_feature(&update.issues_access_level, project.issues_access_level);
    let merge_requests_access_level = holds_feature(&update.merge_requests_access_level, project.merge_requests_access_level);
    let merge_method = holds_method(&update.merge_method, project.merge_method);
    let only_allow_merge_if_all_discussions_are_resolved = holds_flag(&update.only_allow_merge_if_all_discussions_are_resolved, project.only_allow_merge_if_all_discussions_are_resolved);
    let builds_access_level = holds_feature(&update.builds_access_level, project.builds_access_level);
    let container_registry_access_level = holds_feature(&update.container_registry_access_level, project.container_registry_access_level);
    let snippets_access_level = holds_feature(&update.snippets_access_level, project.snippets_access_level);
    let pages_access_level = holds_pages(&update.pages_access_level, project.pages_access_level);
    let requirements_access_level = holds_feature(&update.requirements_access_level, project.requirements_access_level);
    let releases_access_level = holds_feature(&update.releases_access_level, project.releases_access_level);
    let environments_access_level = holds_feature(&update.environments_access_level, project.environments_access_level);
    let feature_flags_access_level = holds_feature(&update.feature_flags_access_level, project.feature_flags_access_level);
    let infrastructure_access_level = holds_feature(&update.infrastructure_access_level, project.infrastructure_access_level);
    let monitor_access_level = holds_feature(&update.monitor_access_level, project.monitor_access_level);
    same_description && request_access_enabled
        && packages_enabled
        && lfs_enabled
        && service_desk_enabled
        && issues_access_level
        && merge_requests_access_level
        && merge_method
        && only_allow_merge_if_all_discussions_are_resolved
        && builds_access_level
        && container_registry_access_level
        && snippets_access_level
        && pages_access_level
        && requirements_access_level
        && releases_access_level
        && environments_access_level
        && feature_flags_access_level
        && infrastructure_access_level
        && monitor_access_level
}

/// The correction of the settings of `project` towards `update`.
pub fn correct_settings(project: &GroupProjects, update: ProjectUpdate) -> (change: Option<Change>)
    ensures
        optional_view(change) == settings_correction(*project, update@),
{
    if is_settled(project, &update) {
        return None;
    }
    let before = format_gitlab_project_settings(
        project.path_with_namespace.as_str(),
        project_description(project),
        project.request_access_enabled,
        project.issues_access_level,
        project.merge_requests_access_level,
        project.merge_method,
        project.only_allow_merge_if_all_discussions_are_resolved,
        project.builds_access_level,
        project.container_registry_access_level,
        project.packages_enabled,
        project.snippets_access_level,
        project.lfs_enabled,
        project.service_desk_enabled,
        project.pages_access_level,
        project.requirements_access_level,
        project.releases_access_level,
        project.environments_access_level,
        project.feature_flags_access_level,
        project.infrastructure_access_level,
        project.monitor_access_level,
    );
    let description = match &update.description {
        Some(text) => text.as_str(),
        None => project_description(project),
    };
    let after = format_gitlab_project_settings(
        project.path_with_namespace.as_str(),
        description,
        choose_value(&update.request_access_enabled, project.request_access_enabled),
        choose_value(&update.issues_access_level, project.issues_access_level),
        choose_value(&update.merge_requests_access_level, project.merge_requests_access_level),
        choose_value(&update.merge_method, project.merge_method),
        choose_value(&update.only_allow_merge_if_all_discussions_are_resolved, project.only_allow_merge_if_all_discussions_are_resolved),
        choose_value(&update.builds_access_level, project.builds_access_level),
        choose_value(&update.container_registry_access_level, project.container_registry_access_level),
        choose_value(&update.packages_enabled, project.packages_enabled),
        choose_value(&update.snippets_access_level, project.snippets_access_level),
        choose_value(&update.lfs_enabled, project.lfs_enabled),
        choose_value(&update.service_desk_enabled, project.service_desk_enabled),
        choose_value(&update.pages_access_level, project.pages_access_level),
        choose_value(&update.requirements_access_level, project.requirements_access_level),
        choose_value(&update.releases_access_level, project.releases_access_level),
        choose_value(&update.environments_access_level, project.environments_access_level),
        choose_value(&update.feature_flags_access_level, project.feature_flags_access_level),
        choose_value(&update.infrastructure_access_level, project.infrastructure_access_level),
        choose_value(&update.monitor_access_level, project.monitor_access_level),
    );
    let ghost view = update@;
    let mut requests: Vec<Request> = Vec::new();
    requests.push(Request::EditProject { project: project.id, update });
    let change = Change { kind: ChangeKind::Change, before, after, requests };
    assert(change@.requests =~= seq![RequestView::EditProject { project: project.id, update: view }]);
    Some(change)
}

/// Whether `project` is a packaging project: whether its path begins with
/// `archlinux/packaging/packages`.
pub open spec fn packaging(project: GroupProjects) -> bool {
    "archlinux/packaging/packages"@.is_prefix_of(project.path_with_namespace@)
}

/// Whether `project` is a packaging project.
pub fn is_packaging_project(project: &GroupProjects) -> (found: bool)
    ensures
        found == packaging(*project),
{
    str_starts_with(project.path_with_namespace.as_str(), "archlinux/packaging/packages")
}

/// The correction of the settings of a project that holds no package.
pub fn apply_project_settings(project: &GroupProjects) -> (change: Option<Change>)
    ensures
        optional_view(change) == settings_correction(*project, generic_profile()),
{
    correct_settings(project, generic_update())
}

/// The correction of the settings of a packaging project, whose description
/// should be `expected_description`.
pub fn apply_package_project_settings(
    project: &GroupProjects,
    expected_description: &str,
) -> (change: Option<Change>)
    ensures
        optional_view(change) == settings_correction(
            *project,
            packaging_profile(expected_description@),
        ),
{
    correct_settings(project, packaging_update(expected_description))
}

/// The correction of the settings of a group: nobody may ask for access.
pub open spec fn group_correction(group: Group) -> Option<ChangeView> {
    if !group.request_access_enabled {
        None
    } else {
        Some(
            ChangeView {
                kind: ChangeKind::Change,
                before: group_settings_text(group.full_path@, true),
                after: group_settings_text(group.full_path@, false),
                requests: seq![
                    RequestView::EditGroup { group: group.id, request_access_enabled: false },
                ],
            },
        )
    }
}

/// The correction of the settings of `group`, if it needs one.
pub fn apply_group_settings(group: &Group) -> (change: Option<Change>)
    ensures
        optional_view(change) == group_correction(*group),
{
    if !group.request_access_enabled {
        return None;
    }
    let mut requests: Vec<Request> = Vec::new();
    requests.push(Request::EditGroup { group: group.id, request_access_enabled: false });
    let change = Change {
        kind: ChangeKind::Change,
        before: format_gitlab_group_settings(group.full_path.as_str(), group.request_access_enabled),
        after: format_gitlab_group_settings(group.full_path.as_str(), false),
        requests,
    };
    assert(change@.requests =~= seq![
        RequestView::EditGroup { group: group.id, request_access_enabled: false },
    ]);
    Some(change)
}

} // verus!
