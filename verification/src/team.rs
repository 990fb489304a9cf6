//! Teams: named groups of users.

use vstd::prelude::*;
use crate::clock::{now, Timestamp};
use crate::project::valid_long_name;
use crate::text::{all_plain_id_chars, byte_len, is_plain_id_char, list_contains, push_unique, remove_all, str_byte_len, views, with_added, with_removed};
use crate::user::{TeamId, UserId};

verus! {

/// A team.
#[derive(Debug, Clone)]
pub struct Team {
    pub id: TeamId,
    pub name: String,
    pub description: Option<String>,
    pub members: Vec<UserId>,
    pub created_at: Timestamp,
    pub updated_at: Timestamp,
}

/// Team ids are 3 to 50 bytes of letters, digits, `_` and `-`.
pub open spec fn valid_team_id(id: Seq<char>) -> bool {
    3 <= byte_len(id) <= 50 && forall|i: int| 0 <= i < id.len() ==> is_plain_id_char(#[trigger] id[i])
}

impl Team {
    /// Creates a team without members, stamped with the current time.
    pub fn new(id: TeamId, name: String) -> (t: Self)
        ensures
            t.id@ == id@,
            t.name@ == name@,
            t.description is None,
            t.members@.len() == 0,
            t.created_at == t.updated_at,
    {
        let t = now();
        Team { id, name, description: None, members: Vec::new(), created_at: t, updated_at: t }
    }

    /// Whether a team id is acceptable.
    pub fn validate_id(id: &str) -> (b: bool)
        ensures
            b == valid_team_id(id@),
    {
        let n = str_byte_len(id);
        n >= 3 && n <= 50 && all_plain_id_chars(id)
    }

    /// Whether a team name is acceptable (1 to 100 bytes).
    pub fn validate_name(name: &str) -> (b: bool)
        ensures
            b == valid_long_name(name@),
    {
        !name.is_empty() && str_byte_len(name) <= 100
    }

    /// Adds a member unless already present; the update time moves only on a change.
    pub fn add_member(&mut self, user_id: UserId)
        ensures
            views(final(self).members@) == with_added(views(old(self).members@), user_id@),
            views(old(self).members@).contains(user_id@) ==> *final(self) == *old(self),
            !views(old(self).members@).contains(user_id@) ==> {
                &&& views(final(self).members@) == views(old(self).members@).push(user_id@)
                &&& *final(self) == (Team { members: final(self).members, updated_at: final(self).updated_at, ..*old(self) })
            },
    {
        if push_unique(&mut self.members, user_id) {
            self.updated_at = now();
        }
    }

    /// Removes a member; the update time moves only when something was removed.
    pub fn remove_member(&mut self, user_id: &UserId)
        ensures
            views(final(self).members@) == with_removed(views(old(self).members@), user_id@),
            !views(old(self).members@).contains(user_id@) ==> final(self).updated_at == old(self).updated_at,
            *final(self) == (Team { members: final(self).members, updated_at: final(self).updated_at, ..*old(self) }),
    {
        if remove_all(&mut self.members, user_id.as_str()) {
            self.updated_at = now();
        }
    }

    /// Whether the user is a member.
    pub fn is_member(&self, user_id: &UserId) -> (b: bool)
        ensures
            b == views(self.members@).contains(user_id@),
    {
        list_contains(&self.members, user_id.as_str())
    }

    /// Number of members.
    pub fn member_count(&self) -> (n: usize)
        ensures
            n == self.members@.len(),
    {
        self.members.len()
    }

    /// Replaces the description and stamps the update time.
    pub fn set_description(&mut self, description: Option<String>)
        ensures
            *final(self) == (Team { description, updated_at: final(self).updated_at, ..*old(self) }),
    {
        self.description = description;
        self.updated_at = now();
    }
}

} // verus!
