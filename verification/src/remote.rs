//! Remotes: named repository URLs that projects synchronise with.

use vstd::prelude::*;
use crate::clock::{now, Timestamp};
use crate::project::{valid_dotted_id, valid_long_name};
use crate::text::{after_char, after_last, all_dotted_id_chars, before_char, copy_str, first_index, first_occurrence, has_prefix, lemma_first_index, list_contains, push_unique, remove_all, str_after_last, str_before_char, str_byte_len, str_contains_char, str_find, str_find_char, str_starts_with, substring, views, with_added, with_removed};

verus! {

broadcast use vstd::seq_lib::group_seq_properties;

/// Remote identifier.
pub type RemoteId = String;

/// A remote repository.
#[derive(Debug, Clone)]
pub struct Remote {
    pub id: RemoteId,
    pub name: String,
    pub url: String,
    pub projects: Vec<String>,
    pub last_sync: Option<Timestamp>,
    pub created_at: Timestamp,
}

/// The transport a remote URL selects.
#[derive(Clone, Copy, Debug, PartialEq, Eq, Structural)]
pub enum RemoteProtocol {
    Ssh,
    Https,
}

/// Remote ids are 3 to 50 bytes of letters, digits, `.`, `_` and `-`.
pub open spec fn valid_remote_id(id: Seq<char>) -> bool {
    valid_dotted_id(id, 3, 50)
}

/// The URL forms a remote accepts: `ssh://`, `https://`, `http://`, or anything with an `@`
/// (the `user@host:path` form).
pub open spec fn valid_remote_url(url: Seq<char>) -> bool {
    has_prefix(url, "ssh://"@) || has_prefix(url, "https://"@) || has_prefix(url, "http://"@) || url.contains('@')
}

/// The protocol a URL selects: SSH for `ssh://` or any `@`, else HTTPS for `https://` or `http://`.
pub open spec fn protocol_of(url: Seq<char>) -> Option<RemoteProtocol> {
    if has_prefix(url, "ssh://"@) || url.contains('@') {
        Some(RemoteProtocol::Ssh)
    } else if has_prefix(url, "https://"@) || has_prefix(url, "http://"@) {
        Some(RemoteProtocol::Https)
    } else {
        None
    }
}

/// The SSH user of a URL: the text before the first `@`, after its last `://`.
pub open spec fn ssh_user_of(url: Seq<char>) -> Option<Seq<char>> {
    if url.contains('@') {
        Some(after_last(before_char(url, '@'), "://"@))
    } else {
        None
    }
}

/// The part of a text before the first `:`, else before the first `/`, else all of it.
pub open spec fn host_prefix(s: Seq<char>) -> Seq<char> {
    if s.contains(':') {
        before_char(s, ':')
    } else {
        before_char(s, '/')
    }
}

/// The host of a URL: for HTTPS the text after `://` up to the next `/`; for SSH with an `@`
/// the piece after the first `@` (up to any next `@`) cut at its first `:` or `/`.
pub open spec fn hostname_of(url: Seq<char>) -> Option<Seq<char>> {
    match protocol_of(url) {
        Some(RemoteProtocol::Https) => match first_occurrence(url, "://"@) {
            Some(start) => Some(before_char(url.skip(start + 3), '/')),
            None => None,
        },
        Some(RemoteProtocol::Ssh) => if url.contains('@') {
            Some(host_prefix(before_char(after_char(url, '@'), '@')))
        } else {
            None
        },
        None => None,
    }
}

/// Every URL a remote accepts selects a protocol, and only those do.
pub proof fn lemma_valid_url_has_protocol(url: Seq<char>)
    ensures
        valid_remote_url(url) <==> protocol_of(url) is Some,
{
}

impl Remote {
    /// Creates a remote with no projects and no synchronisation yet, stamped with the current time.
    pub fn new(id: RemoteId, name: String, url: String) -> (r: Self)
        ensures
            r.id@ == id@,
            r.name@ == name@,
            r.url@ == url@,
            r.projects@.len() == 0,
            r.last_sync is None,
    {
        Remote { id, name, url, projects: Vec::new(), last_sync: None, created_at: now() }
    }

    /// Whether a remote id is acceptable.
    pub fn validate_id(id: &str) -> (b: bool)
        ensures
            b == valid_remote_id(id@),
    {
        let n = str_byte_len(id);
        n >= 3 && n <= 50 && all_dotted_id_chars(id)
    }

    /// Whether a remote name is acceptable (1 to 100 bytes).
    pub fn validate_name(name: &str) -> (b: bool)
        ensures
            b == valid_long_name(name@),
    {
        !name.is_empty() && str_byte_len(name) <= 100
    }

    /// Whether a URL has one of the accepted forms.
    pub fn validate_url(url: &str) -> (b: bool)
        ensures
            b == valid_remote_url(url@),
    {
        proof {
            reveal_strlit("ssh://");
            reveal_strlit("https://");
            reveal_strlit("http://");
        }
        str_starts_with(url, "ssh://") || str_starts_with(url, "https://") || str_starts_with(url, "http://")
            || str_contains_char(url, '@')
    }

    /// The protocol the URL selects, if any.
    pub fn get_protocol(&self) -> (p: Option<RemoteProtocol>)
        ensures
            p == protocol_of(self.url@),
    {
        proof {
            reveal_strlit("ssh://");
            reveal_strlit("https://");
            reveal_strlit("http://");
        }
        let u = self.url.as_str();
        if str_starts_with(u, "ssh://") || str_contains_char(u, '@') {
            Some(RemoteProtocol::Ssh)
        } else if str_starts_with(u, "https://") || str_starts_with(u, "http://") {
            Some(RemoteProtocol::Https)
        } else {
            None
        }
    }

    /// Syncs a project through this remote unless it already does. Nothing else changes.
    pub fn add_project(&mut self, project_id: String)
        ensures
            views(final(self).projects@) == with_added(views(old(self).projects@), project_id@),
            *final(self) == (Remote { projects: final(self).projects, ..*old(self) }),
    {
        push_unique(&mut self.projects, project_id);
    }

    /// Stops syncing a project through this remote. Nothing else changes.
    pub fn remove_project(&mut self, project_id: &String)
        ensures
            views(final(self).projects@) == with_removed(views(old(self).projects@), project_id@),
            *final(self) == (Remote { projects: final(self).projects, ..*old(self) }),
    {
        remove_all(&mut self.projects, project_id.as_str());
    }

    /// Whether the remote syncs the project.
    pub fn has_project(&self, project_id: &String) -> (b: bool)
        ensures
            b == views(self.projects@).contains(project_id@),
    {
        list_contains(&self.projects, project_id.as_str())
    }

    /// Number of projects synced through this remote.
    pub fn project_count(&self) -> (n: usize)
        ensures
            n == self.projects@.len(),
    {
        self.projects.len()
    }

    /// Records a synchronisation at the current time. Nothing else changes.
    pub fn update_last_sync(&mut self)
        ensures
            final(self).last_sync is Some,
            *final(self) == (Remote { last_sync: final(self).last_sync, ..*old(self) }),
    {
        self.last_sync = Some(now());
    }

    /// Whether the remote was ever synchronised.
    pub fn has_synced(&self) -> (b: bool)
        ensures
            b == self.last_sync is Some,
    {
        self.last_sync.is_some()
    }

    /// Microseconds elapsed between the last synchronisation and the current time: the
    /// clock's reading (some `i64`, whatever the clock says) less the time of the last
    /// synchronisation.
    pub fn time_since_sync(&self) -> (d: Option<i128>)
        ensures
            d is Some <==> self.last_sync is Some,
            self.last_sync matches Some(l) ==> (d matches Some(x) && i64::MIN <= x + l <= i64::MAX),
    {
        match self.last_sync {
            Some(last) => {
                let t = now();
                Some(t as i128 - last as i128)
            },
            None => None,
        }
    }

    /// Renames the remote when the name is valid; otherwise nothing changes.
    pub fn set_name(&mut self, name: String) -> (r: Result<(), String>)
        ensures
            r is Ok <==> valid_long_name(name@),
            r is Ok ==> *final(self) == (Remote { name, ..*old(self) }),
            r matches Err(m) ==> m@ == "Invalid remote name"@ && *final(self) == *old(self),
    {
        if !Self::validate_name(name.as_str()) {
            proof { reveal_strlit("Invalid remote name"); }
            return Err(copy_str("Invalid remote name"));
        }
        self.name = name;
        Ok(())
    }

    /// Points the remote at another URL when it has an accepted form; otherwise nothing changes.
    pub fn set_url(&mut self, url: String) -> (r: Result<(), String>)
        ensures
            r is Ok <==> valid_remote_url(url@),
            r is Ok ==> *final(self) == (Remote { url, ..*old(self) }),
            r matches Err(m) ==> m@ == "Invalid remote URL format"@ && *final(self) == *old(self),
    {
        if !Self::validate_url(url.as_str()) {
            proof { reveal_strlit("Invalid remote URL format"); }
            return Err(copy_str("Invalid remote URL format"));
        }
        self.url = url;
        Ok(())
    }

    /// The SSH user named in the URL, when it holds an `@`.
    pub fn get_ssh_user(&self) -> (r: Option<String>)
        ensures
            r matches Some(u) ==> ssh_user_of(self.url@) == Some(u@),
            r is None ==> ssh_user_of(self.url@) is None,
    {
        let u = self.url.as_str();
        if str_contains_char(u, '@') {
            proof { reveal_strlit("://"); }
            let before = str_before_char(u, '@');
            Some(str_after_last(before.as_str(), "://"))
        } else {
            None
        }
    }

    /// The host named in the URL.
    pub fn get_hostname(&self) -> (r: Option<String>)
        ensures
            r matches Some(h) ==> hostname_of(self.url@) == Some(h@),
            r is None ==> hostname_of(self.url@) is None,
    {
        let u = self.url.as_str();
        let n = u.unicode_len();
        match self.get_protocol() {
            Some(RemoteProtocol::Https) => {
                proof { reveal_strlit("://"); }
                match str_find(u, "://") {
                    Some(start) => {
                        let after = substring(u, start + 3, n);
                        assert(after@ == self.url@.skip(start + 3));
                        Some(str_before_char(after.as_str(), '/'))
                    },
                    None => None,
                }
            },
            Some(RemoteProtocol::Ssh) => {
                match str_find_char(u, '@') {
                    Some(at) => {
                        proof { lemma_first_index(self.url@, '@', at as int); }
                        let rest = substring(u, at + 1, n);
                        assert(rest@ == after_char(self.url@, '@'));
                        let host_part = str_before_char(rest.as_str(), '@');
                        let h = host_part.as_str();
                        if str_contains_char(h, ':') {
                            Some(str_before_char(h, ':'))
                        } else {
                            Some(str_before_char(h, '/'))
                        }
                    },
                    None => None,
                }
            },
            None => None,
        }
    }
}

} // verus!
