//! Finding the platform's user for an identity of the directory.

use vstd::prelude::*;
use vstd::string::*;
use crate::state::User;
use crate::text::same_str;
use crate::text::number::{decimal, decimal_string};
use crate::types::GitLabUser;

verus! {

broadcast use vstd::string::group_string_axioms;

/// What the search for an identity's user gave.
#[derive(Debug, Clone, Copy, PartialEq, Eq, Structural)]
pub enum Correlation {
    /// The platform has no such user. The identity keeps no platform number
    /// and is never added as a member.
    Missing,
    /// The platform has one such user.
    Resolved {
        id: u64,
        /// Whether the user is named as the identity is.
        same_username: bool,
    },
}

/// The platform has more than one user for one identity.
#[derive(Debug, Clone, Copy, PartialEq, Eq, Structural)]
pub struct Ambiguous {
    /// How many users it has.
    pub count: usize,
}

/// The message of an ambiguous search for the identity `username`.
pub open spec fn ambiguity_text(count: nat, username: Seq<char>) -> Seq<char> {
    "Somehow got "@ + decimal(count) + " GitLab user results for "@ + username
}

impl Ambiguous {
    /// The message of the error, for the identity `username`.
    pub fn message(&self, username: &str) -> (text: String)
        ensures
            text@ == ambiguity_text(self.count as nat, username@),
    {
        let mut text = String::from_str("Somehow got ");
        text.append(decimal_string(self.count as u64).as_str());
        text.append(" GitLab user results for ");
        text.append(username);
        text
    }
}

/// What the users `found` for `user` say of it.
pub open spec fn correlation_of(user: User, found: Seq<GitLabUser>) -> Result<Correlation, Ambiguous> {
    if found.len() == 0 {
        Ok(Correlation::Missing)
    } else if found.len() > 1 {
        Err(Ambiguous { count: found.len() as usize })
    } else {
        Ok(
            Correlation::Resolved {
                id: found[0].id,
                same_username: user.username@ == found[0].username@,
            },
        )
    }
}

/// The platform number that an identity has after a search: the number of the
/// user found, or the one it had where none was found.
pub open spec fn number_after(
    before: Option<u64>,
    outcome: Result<Correlation, Ambiguous>,
) -> Option<u64> {
    match outcome {
        Ok(Correlation::Resolved { id, same_username }) => Some(id),
        _ => before,
    }
}

/// Takes the platform number of `user` from the users `found` for it. One
/// user gives the number. None leaves the identity as it is. More than one
/// is an error, and leaves the identity as it is.
pub fn correlate(
    user: &mut User,
    found: &Vec<GitLabUser>,
) -> (outcome: Result<Correlation, Ambiguous>)
    ensures
        outcome == correlation_of(*old(user), found@),
        final(user).username == old(user).username,
        final(user).groups == old(user).groups,
        final(user).gitlab_id == number_after(old(user).gitlab_id, outcome),
{
    if found.len() == 0 {
        return Ok(Correlation::Missing);
    } else if found.len() > 1 {
        return Err(Ambiguous { count: found.len() });
    }
    let gitlab_user = &found[0];
    let same_username = same_str(user.username.as_str(), gitlab_user.username.as_str());
    user.gitlab_id = Some(gitlab_user.id);
    Ok(Correlation::Resolved { id: gitlab_user.id, same_username })
}

} // verus!
