//! Access levels from their ranks, and the blocks of text that describe an
//! entity before and after a correction.

use vstd::prelude::*;
use vstd::string::*;
use itertools::Itertools;
use crate::text::{chars_of, string_of};
use crate::text::number::{truth, truth_str};
use crate::text::search::{escape_line_feeds, escaped_line_feeds, joined};
use crate::types::{
    AccessLevel, MyProtectedAccessLevel, ProjectFeatureAccessLevel,
    ProjectFeatureAccessLevelPublic, ProjectMergeMethod,
};

verus! {

broadcast use vstd::string::group_string_axioms;

/// The access level of a rank; a rank that no level has stands for
/// `Anonymous`.
pub open spec fn access_level_of(rank: u64) -> AccessLevel {
    if rank == 60 {
        AccessLevel::Admin
    } else if rank == 50 {
        AccessLevel::Owner
    } else if rank == 40 {
        AccessLevel::Maintainer
    } else if rank == 30 {
        AccessLevel::Developer
    } else if rank == 20 {
        AccessLevel::Reporter
    } else if rank == 10 {
        AccessLevel::Guest
    } else if rank == 5 {
        AccessLevel::Minimal
    } else {
        AccessLevel::Anonymous
    }
}

/// The access level of a rank.
pub fn access_level_from_u64(access_level: u64) -> (level: AccessLevel)
    ensures
        level == access_level_of(access_level),
{
    match access_level {
        60 => AccessLevel::Admin,
        50 => AccessLevel::Owner,
        40 => AccessLevel::Maintainer,
        30 => AccessLevel::Developer,
        20 => AccessLevel::Reporter,
        10 => AccessLevel::Guest,
        5 => AccessLevel::Minimal,
        _ => AccessLevel::Anonymous,
    }
}

/// Every access level is the level of its own rank, and a higher level has a
/// higher rank.
pub proof fn lemma_access_level_round_trip(level: AccessLevel)
    ensures
        access_level_of(level.rank()) == level,
{
}

/// The block that describes the membership of an address in a mailing list.
pub open spec fn mailman_membership_text(mailing_list: Seq<char>, email: Seq<char>) -> Seq<char> {
    "mailing_list_membership {\n\tmailing_list = "@ + mailing_list + "\n\temail  = "@ + email
        + "\n\n}"@
}

/// Writes the block that describes the membership of an address in a
/// mailing list.
pub fn format_mailman_membership(mailing_list: &str, email: &str) -> (block: String)
    ensures
        block@ == mailman_membership_text(mailing_list@, email@),
{
    let mut block = String::from_str("mailing_list_membership {\n\tmailing_list = ");
    block.append(mailing_list);
    block.append("\n\temail  = ");
    block.append(email);
    block.append("\n\n}");
    block
}

/// The block that describes the access of a member to a group or project.
pub open spec fn member_access_text(
    namespace: Seq<char>,
    username: Seq<char>,
    access_level: AccessLevel,
) -> Seq<char> {
    "gitlab_member_access {\n\tnamespace    = "@ + namespace + "\n\tusername     = "@ + username
        + "\n\taccess_level = "@ + access_level.name() + "\n}"@
}

/// Writes the block that describes the access of a member.
pub fn format_gitlab_member_access(
    namespace: &str,
    username: &str,
    access_level: AccessLevel,
) -> (block: String)
    ensures
        block@ == member_access_text(namespace@, username@, access_level),
{
    let mut block = String::from_str("gitlab_member_access {\n\tnamespace    = ");
    block.append(namespace);
    block.append("\n\tusername     = ");
    block.append(username);
    block.append("\n\taccess_level = ");
    block.append(access_level.as_str());
    block.append("\n}");
    block
}

/// The block that describes a user of the platform.
pub open spec fn user_text(username: Seq<char>, admin: bool) -> Seq<char> {
    "gitlab_user {\n\tusername = "@ + username + "\n\tadmin    = "@ + truth(admin) + "\n}"@
}

/// Writes the block that describes a user of the platform.
pub fn format_gitlab_user(username: &str, admin: bool) -> (block: String)
    ensures
        block@ == user_text(username@, admin),
{
    let mut block = String::from_str("gitlab_user {\n\tusername = ");
    block.append(username);
    block.append("\n\tadmin    = ");
    block.append(truth_str(admin));
    block.append("\n}");
    block
}

/// The block that describes the settings of a project. Line feeds of the
/// description are written as an escape, so that it stays on one line.
pub open spec fn project_settings_text(
    namespace: Seq<char>,
    description: Seq<char>,
    request_access_enabled: bool,
    issues_access_level: ProjectFeatureAccessLevel,
    merge_requests_access_level: ProjectFeatureAccessLevel,
    merge_method: ProjectMergeMethod,
    only_allow_merge_if_all_discussions_are_resolved: bool,
    builds_access_level: ProjectFeatureAccessLevel,
    container_registry_access_level: ProjectFeatureAccessLevel,
    packages_enabled: bool,
    snippets_access_level: ProjectFeatureAccessLevel,
    lfs_enabled: bool,
    service_desk_enabled: bool,
    pages_access_level: ProjectFeatureAccessLevelPublic,
    requirements_access_level: ProjectFeatureAccessLevel,
    releases_access_level: ProjectFeatureAccessLevel,
    environments_access_level: ProjectFeatureAccessLevel,
    feature_flags_access_level: ProjectFeatureAccessLevel,
    infrastructure_access_level: ProjectFeatureAccessLevel,
    monitor_access_level: ProjectFeatureAccessLevel,
) -> Seq<char> {
    "gitlab_project_setting {\n\tnamespace                       = "@ + namespace
        + "\n\tdescription                     = "@ + escaped_line_feeds(description)
        + "\n\trequest_access_enabled          = "@ + truth(request_access_enabled)
        + "\n\tissues_access_level             = "@ + issues_access_level.name()
        + "\n\tmerge_requests_access_level     = "@ + merge_requests_access_level.name()
        + "\n\tmerge_method                    = "@ + merge_method.name()
        + "\n\tonly_allow_merge_if_all_discussions_are_resolved = "@ + truth(only_allow_merge_if_all_discussions_are_resolved)
        + "\n\tbuilds_access_level             = "@ + builds_access_level.name()
        + "\n\tcontainer_registry_access_level = "@ + container_registry_access_level.name()
        + "\n\tpackages_enabled                = "@ + truth(packages_enabled)
        + "\n\tsnippets_access_level           = "@ + snippets_access_level.name()
        + "\n\tlfs_enabled                     = "@ + truth(lfs_enabled)
        + "\n\tservice_desk_enabled            = "@ + truth(service_desk_enabled)
        + "\n\tpages_access_level              = "@ + pages_access_level.name()
        + "\n\trequirements_access_level       = "@ + requirements_access_level.name()
        + "\n\treleases_access_level           = "@ + releases_access_level.name()
        + "\n\tenvironments_access_level       = "@ + environments_access_level.name()
        + "\n\tfeature_flags_access_level      = "@ + feature_flags_access_level.name()
        + "\n\tinfrastructure_access_level     = "@ + infrastructure_access_level.name()
        + "\n\tmonitor_access_level            = "@ + monitor_access_level.name()
        + "\n}"@
}

/// Writes the block that describes the settings of a project.
pub fn format_gitlab_project_settings(
    namespace: &str,
    description: &str,
    request_access_enabled: bool,
    issues_access_level: ProjectFeatureAccessLevel,
    merge_requests_access_level: ProjectFeatureAccessLevel,
    merge_method: ProjectMergeMethod,
    only_allow_merge_if_all_discussions_are_resolved: bool,
    builds_access_level: ProjectFeatureAccessLevel,
    container_registry_access_level: ProjectFeatureAccessLevel,
    packages_enabled: bool,
    snippets_access_level: ProjectFeatureAccessLevel,
    lfs_enabled: bool,
    service_desk_enabled: bool,
    pages_access_level: ProjectFeatureAccessLevelPublic,
    requirements_access_level: ProjectFeatureAccessLevel,
    releases_access_level: ProjectFeatureAccessLevel,
    environments_access_level: ProjectFeatureAccessLevel,
    feature_flags_access_level: ProjectFeatureAccessLevel,
    infrastructure_access_level: ProjectFeatureAccessLevel,
    monitor_access_level: ProjectFeatureAccessLevel,
) -> (block: String)
    ensures
        block@ == project_settings_text(
            namespace@,
            description@,
            request_access_enabled,
            issues_access_level,
            merge_requests_access_level,
            merge_method,
            only_allow_merge_if_all_discussions_are_resolved,
            builds_access_level,
            container_registry_access_level,
            packages_enabled,
            snippets_access_level,
            lfs_enabled,
            service_desk_enabled,
            pages_access_level,
            requirements_access_level,
            releases_access_level,
            environments_access_level,
            feature_flags_access_level,
            infrastructure_access_level,
            monitor_access_level,
        ),
{
    let mut block = String::from_str("gitlab_project_setting {\n\tnamespace                       = ");
    block.append(namespace);
    block.append("\n\tdescription                     = ");
    let escaped = string_of(&escape_line_feeds(&chars_of(description)));
    block.append(escaped.as_str());
    block.append("\n\trequest_access_enabled          = ");
    block.append(truth_str(request_access_enabled));
    block.append("\n\tissues_access_level             = ");
    block.append(issues_access_level.as_str());
    block.append("\n\tmerge_requests_access_level     = ");
    block.append(merge_requests_access_level.as_str());
    block.append("\n\tmerge_method                    = ");
    block.append(merge_method.as_str());
    block.append("\n\tonly_allow_merge_if_all_discussions_are_resolved = ");
    block.append(truth_str(only_allow_merge_if_all_discussions_are_resolved));
    block.append("\n\tbuilds_access_level             = ");
    block.append(builds_access_level.as_str());
    block.append("\n\tcontainer_registry_access_level = ");
    block.append(container_registry_access_level.as_str());
    block.append("\n\tpackages_enabled                = ");
    block.append(truth_str(packages_enabled));
    block.append("\n\tsnippets_access_level           = ");
    block.append(snippets_access_level.as_str());
    block.append("\n\tlfs_enabled                     = ");
    block.append(truth_str(lfs_enabled));
    block.append("\n\tservice_desk_enabled            = ");
    block.append(truth_str(service_desk_enabled));
    block.append("\n\tpages_access_level              = ");
    block.append(pages_access_level.as_str());
    block.append("\n\trequirements_access_level       = ");
    block.append(requirements_access_level.as_str());
    block.append("\n\treleases_access_level           = ");
    block.append(releases_access_level.as_str());
    block.append("\n\tenvironments_access_level       = ");
    block.append(environments_access_level.as_str());
    block.append("\n\tfeature_flags_access_level      = ");
    block.append(feature_flags_access_level.as_str());
    block.append("\n\tinfrastructure_access_level     = ");
    block.append(infrastructure_access_level.as_str());
    block.append("\n\tmonitor_access_level            = ");
    block.append(monitor_access_level.as_str());
    block.append("\n}");
    block
}

/// The block that describes the settings of a group.
pub open spec fn group_settings_text(path: Seq<char>, request_access_enabled: bool) -> Seq<char> {
    "gitlab_group_setting {\n\tnamespace              = "@ + path
        + "\n\trequest_access_enabled = "@ + truth(request_access_enabled) + "\n}"@
}

/// Writes the block that describes the settings of a group.
pub fn format_gitlab_group_settings(path: &str, request_access_enabled: bool) -> (block: String)
    ensures
        block@ == group_settings_text(path@, request_access_enabled),
{
    let mut block = String::from_str("gitlab_group_setting {\n\tnamespace              = ");
    block.append(path);
    block.append("\n\trequest_access_enabled = ");
    block.append(truth_str(request_access_enabled));
    block.append("\n}");
    block
}

/// The names of protection levels, in order.
pub open spec fn level_names(levels: Seq<MyProtectedAccessLevel>) -> Seq<Seq<char>> {
    levels.map_values(|level: MyProtectedAccessLevel| level.name())
}

/// The block that describes the protection of a tag.
pub open spec fn protected_tag_text(
    namespace: Seq<char>,
    name: Seq<char>,
    create_access_level: Seq<MyProtectedAccessLevel>,
) -> Seq<char> {
    "gitlab_project_protected_tag {\n\tnamespace           = "@ + namespace
        + "\n\tname                = "@ + name + "\n\tcreate_access_level = "@ + joined(
        level_names(create_access_level),
        ", "@,
    ) + "\n}"@
}

/// Joins names with a separator, through `Itertools::join`: the names one
/// after the other with the separator between each two, and the empty text
/// where there is no name.
#[verifier::external_body]
fn join_names(names: &Vec<&'static str>, separator: &str) -> (whole: String)
    ensures
        whole@ == joined(names@.map_values(|name: &'static str| name@), separator@),
{
    names.iter().join(separator)
}

/// Writes the block that describes the protection of a tag.
pub fn format_gitlab_project_protected_tag(
    namespace: &str,
    name: &str,
    create_access_level: &[MyProtectedAccessLevel],
) -> (block: String)
    ensures
        block@ == protected_tag_text(namespace@, name@, create_access_level@),
{
    let levels = level_list(create_access_level);
    let mut block = String::from_str("gitlab_project_protected_tag {\n\tnamespace           = ");
    block.append(namespace);
    block.append("\n\tname                = ");
    block.append(name);
    block.append("\n\tcreate_access_level = ");
    block.append(levels.as_str());
    block.append("\n}");
    block
}

/// The block that describes the protection of a branch.
pub open spec fn protected_branch_text(
    namespace: Seq<char>,
    name: Seq<char>,
    push_access_level: Seq<MyProtectedAccessLevel>,
    merge_access_level: Seq<MyProtectedAccessLevel>,
) -> Seq<char> {
    "gitlab_project_protected_branch {\n\tnamespace          = "@ + namespace
        + "\n\tname               = "@ + name + "\n\tpush_access_level  = "@ + joined(
        level_names(push_access_level),
        ", "@,
    ) + "\n\tmerge_access_level = "@ + joined(level_names(merge_access_level), ", "@) + "\n}"@
}

/// The names of the given levels, joined by a comma and a space.
fn level_list(levels: &[MyProtectedAccessLevel]) -> (list: String)
    ensures
        list@ == joined(level_names(levels@), ", "@),
{
    let mut names: Vec<&'static str> = Vec::new();
    let mut i: usize = 0;
    while i < levels.len()
        invariant
            i <= levels.len(),
            names@.len() == i,
            forall|k: int| 0 <= k < i ==> (#[trigger] names@[k])@ == levels@[k].name(),
        decreases levels.len() - i,
    {
        let level = &levels[i];
        names.push(level.as_str());
        i += 1;
    }
    assert(names@.map_values(|name: &'static str| name@) =~= level_names(levels@));
    join_names(&names, ", ")
}

/// Writes the block that describes the protection of a branch.
pub fn format_gitlab_project_protected_branch(
    namespace: &str,
    name: &str,
    push_access_level: &[MyProtectedAccessLevel],
    merge_access_level: &[MyProtectedAccessLevel],
) -> (block: String)
    ensures
        block@ == protected_branch_text(
            namespace@,
            name@,
            push_access_level@,
            merge_access_level@,
        ),
{
    let mut block = String::from_str("gitlab_project_protected_branch {\n\tnamespace          = ");
    block.append(namespace);
    block.append("\n\tname               = ");
    block.append(name);
    block.append("\n\tpush_access_level  = ");
    block.append(level_list(push_access_level).as_str());
    block.append("\n\tmerge_access_level = ");
    block.append(level_list(merge_access_level).as_str());
    block.append("\n}");
    block
}

/// The line that closes the report of a unit: 72 hyphens.
pub open spec fn separator_text() -> Seq<char> {
    Seq::new(72, |i: int| '-')
}

/// Writes the line that closes the report of a unit.
pub fn format_separator() -> (line: String)
    ensures
        line@ == separator_text(),
{
    let mut line: Vec<char> = Vec::new();
    let mut i: usize = 0;
    while i < 72
        invariant
            i <= 72,
            line@ == Seq::new(i as nat, |k: int| '-'),
        decreases 72 - i,
    {
        line.push('-');
        i += 1;
    }
    string_of(&line)
}

} // verus!
