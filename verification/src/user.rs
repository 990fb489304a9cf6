//! Users and their team memberships.

use vstd::prelude::*;
use crate::clock::{now, Timestamp};
use crate::text::{all_plain_id_chars, byte_len, has_prefix, is_plain_id_char, push_unique, remove_all, str_byte_len, str_contains_char, views, with_added, with_removed};

verus! {

/// User identifier.
pub type UserId = String;

/// Team identifier.
pub type TeamId = String;

/// A user.
#[derive(Debug, Clone)]
pub struct User {
    pub id: UserId,
    pub name: String,
    pub email: String,
    pub avatar: Option<String>,
    pub teams: Vec<TeamId>,
    pub created_at: Timestamp,
    pub last_active: Timestamp,
}

/// User ids are non-empty and hold only letters, digits, `_` and `-`.
pub open spec fn valid_user_id(id: Seq<char>) -> bool {
    id.len() > 0 && forall|i: int| 0 <= i < id.len() ==> is_plain_id_char(#[trigger] id[i])
}

/// The basic e-mail check: an `@` and a `.` somewhere, more than five bytes, not starting with `@`.
pub open spec fn valid_email(email: Seq<char>) -> bool {
    &&& email.contains('@')
    &&& email.contains('.')
    &&& byte_len(email) > 5
    &&& !(email.len() > 0 && email[0] == '@')
}

impl User {
    /// Creates a user in no team, stamped with the current time.
    pub fn new(id: UserId, name: String, email: String) -> (u: Self)
        ensures
            u.id@ == id@,
            u.name@ == name@,
            u.email@ == email@,
            u.avatar is None,
            u.teams@.len() == 0,
            u.created_at == u.last_active,
    {
        let t = now();
        User { id, name, email, avatar: None, teams: Vec::new(), created_at: t, last_active: t }
    }

    /// Whether a user id is acceptable.
    pub fn validate_id(id: &str) -> (b: bool)
        ensures
            b == valid_user_id(id@),
    {
        !id.is_empty() && all_plain_id_chars(id)
    }

    /// Whether an e-mail address passes the basic check.
    pub fn validate_email(email: &str) -> (b: bool)
        ensures
            b == valid_email(email@),
    {
        let starts_at = !email.is_empty() && email.get_char(0) == '@';
        str_contains_char(email, '@') && str_contains_char(email, '.') && str_byte_len(email) > 5 && !starts_at
    }

    /// Joins a team unless already a member. Nothing else changes.
    pub fn add_to_team(&mut self, team_id: TeamId)
        ensures
            views(final(self).teams@) == with_added(views(old(self).teams@), team_id@),
            *final(self) == (User { teams: final(self).teams, ..*old(self) }),
    {
        push_unique(&mut self.teams, team_id);
    }

    /// Leaves a team. Nothing else changes.
    pub fn remove_from_team(&mut self, team_id: &TeamId)
        ensures
            views(final(self).teams@) == with_removed(views(old(self).teams@), team_id@),
            *final(self) == (User { teams: final(self).teams, ..*old(self) }),
    {
        remove_all(&mut self.teams, team_id.as_str());
    }

    /// Stamps the last-active time with the current time. Nothing else changes.
    pub fn update_last_active(&mut self)
        ensures
            *final(self) == (User { last_active: final(self).last_active, ..*old(self) }),
    {
        self.last_active = now();
    }
}

} // verus!
