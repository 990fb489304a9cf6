//! Single configuration values by their dotted keys: `user.name`, `user.email`,
//! `project.name`, `project.description`, `project.default_branch`,
//! `remotes.<name>.url` and `remotes.<name>.protocol`. Reading, writing, clearing,
//! and resetting whole sections.

use vstd::prelude::*;
use crate::config::{
    entries, find_remote_index, lemma_contains_first, lemma_upserted_lookup, lookup, names,
    remote_index, remotes_wf, upserted, Config, ConfigView, NamedRemote, RemoteConfig, RemoteEntryView,
};
use crate::errors::OdiError;
use crate::text::{
    after_char, before_char, copy_opt, copy_str, has_prefix, is_blank, lemma_first_index,
    opt_view, str_eq, str_find_char, str_is_blank, str_starts_with, substring, views,
};

verus! {

/// What a dotted key designates.
pub enum KeyView {
    UserName,
    UserEmail,
    ProjectName,
    ProjectDescription,
    ProjectDefaultBranch,
    RemoteUrl(Seq<char>),
    RemoteProtocol(Seq<char>),
    Unknown,
}

/// The key that a dotted text designates. Its pieces between dots must match one of
/// the known shapes exactly; a remote's name is the piece between `remotes.` and the
/// next dot.
pub open spec fn key_of(k: Seq<char>) -> KeyView {
    if k == "user.name"@ {
        KeyView::UserName
    } else if k == "user.email"@ {
        KeyView::UserEmail
    } else if k == "project.name"@ {
        KeyView::ProjectName
    } else if k == "project.description"@ {
        KeyView::ProjectDescription
    } else if k == "project.default_branch"@ {
        KeyView::ProjectDefaultBranch
    } else if has_prefix(k, "remotes."@) && k.skip("remotes."@.len() as int).contains('.') {
        let rest = k.skip("remotes."@.len() as int);
        let t = after_char(rest, '.');
        if t == "url"@ {
            KeyView::RemoteUrl(before_char(rest, '.'))
        } else if t == "protocol"@ {
            KeyView::RemoteProtocol(before_char(rest, '.'))
        } else {
            KeyView::Unknown
        }
    } else {
        KeyView::Unknown
    }
}

enum ConfigKey {
    UserName,
    UserEmail,
    ProjectName,
    ProjectDescription,
    ProjectDefaultBranch,
    RemoteUrl(String),
    RemoteProtocol(String),
    Unknown,
}

impl View for ConfigKey {
    type V = KeyView;

    closed spec fn view(&self) -> KeyView {
        match self {
            ConfigKey::UserName => KeyView::UserName,
            ConfigKey::UserEmail => KeyView::UserEmail,
            ConfigKey::ProjectName => KeyView::ProjectName,
            ConfigKey::ProjectDescription => KeyView::ProjectDescription,
            ConfigKey::ProjectDefaultBranch => KeyView::ProjectDefaultBranch,
            ConfigKey::RemoteUrl(n) => KeyView::RemoteUrl(n@),
            ConfigKey::RemoteProtocol(n) => KeyView::RemoteProtocol(n@),
            ConfigKey::Unknown => KeyView::Unknown,
        }
    }
}

/// Splits a dotted key into what it designates.
fn parse_key(key: &str) -> (k: ConfigKey)
    ensures
        k@ == key_of(key@),
{
    if str_eq(key, "user.name") {
        return ConfigKey::UserName;
    }
    if str_eq(key, "user.email") {
        return ConfigKey::UserEmail;
    }
    if str_eq(key, "project.name") {
        return ConfigKey::ProjectName;
    }
    if str_eq(key, "project.description") {
        return ConfigKey::ProjectDescription;
    }
    if str_eq(key, "project.default_branch") {
        return ConfigKey::ProjectDefaultBranch;
    }
    let prefix = "remotes.";
    if !str_starts_with(key, prefix) {
        return ConfigKey::Unknown;
    }
    let n = key.unicode_len();
    let p = prefix.unicode_len();
    let rest = substring(key, p, n);
    assert(rest@ =~= key@.skip(p as int));
    let rest_str = rest.as_str();
    match str_find_char(rest_str, '.') {
        None => ConfigKey::Unknown,
        Some(i) => {
            proof {
                lemma_first_index(rest@, '.', i as int);
            }
            let m = rest_str.unicode_len();
            let name = substring(rest_str, 0, i);
            let tail = substring(rest_str, i + 1, m);
            assert(name@ =~= before_char(rest@, '.'));
            assert(tail@ =~= after_char(rest@, '.'));
            if str_eq(tail.as_str(), "url") {
                ConfigKey::RemoteUrl(name)
            } else if str_eq(tail.as_str(), "protocol") {
                ConfigKey::RemoteProtocol(name)
            } else {
                ConfigKey::Unknown
            }
        },
    }
}

/// The value that a key reads from a configuration; a remote's field is read from the
/// remote that [`lookup`] finds.
pub open spec fn config_get(c: ConfigView, k: KeyView) -> Option<Seq<char>> {
    match k {
        KeyView::UserName => Some(c.user_name),
        KeyView::UserEmail => Some(c.user_email),
        KeyView::ProjectName => Some(c.project_name),
        KeyView::ProjectDescription => c.project_description,
        KeyView::ProjectDefaultBranch => c.default_branch,
        KeyView::RemoteUrl(n) => match lookup(c.remotes, n) {
            Some(e) => Some(e.url),
            None => None,
        },
        KeyView::RemoteProtocol(n) => match lookup(c.remotes, n) {
            Some(e) => Some(e.protocol),
            None => None,
        },
        KeyView::Unknown => None,
    }
}

/// Reads the value under a dotted key; `None` for an unknown key, an unset optional
/// value, or a remote that does not exist.
pub fn get_value_by_path(config: &Config, key: &str) -> (r: Option<String>)
    ensures
        opt_view(r) == config_get(config@, key_of(key@)),
{
    match parse_key(key) {
        ConfigKey::UserName => Some(copy_str(config.user.name.as_str())),
        ConfigKey::UserEmail => Some(copy_str(config.user.email.as_str())),
        ConfigKey::ProjectName => Some(copy_str(config.project.name.as_str())),
        ConfigKey::ProjectDescription => copy_opt(&config.project.description),
        ConfigKey::ProjectDefaultBranch => copy_opt(&config.project.default_branch),
        ConfigKey::RemoteUrl(n) => match find_remote_index(&config.remotes, n.as_str()) {
            Some(i) => Some(copy_str(config.remotes[i].remote.url.as_str())),
            None => None,
        },
        ConfigKey::RemoteProtocol(n) => match find_remote_index(&config.remotes, n.as_str()) {
            Some(i) => Some(copy_str(config.remotes[i].remote.protocol.as_str())),
            None => None,
        },
        ConfigKey::Unknown => None,
    }
}

/// Why a change of configuration is refused: a value that breaks a rule, or a key
/// that designates nothing.
pub enum Refusal {
    Validation(Seq<char>),
    Config(Seq<char>),
}

/// `r` is the error that `f` describes.
pub open spec fn refused_as(r: Result<(), OdiError>, f: Refusal) -> bool {
    match f {
        Refusal::Validation(m) => r matches Err(OdiError::Validation { message }) && message@ == m,
        Refusal::Config(m) => r matches Err(OdiError::Config { message }) && message@ == m,
    }
}

/// The message for a remote that does not exist, when setting one of its fields.
pub open spec fn no_remote_to_set(n: Seq<char>) -> Seq<char> {
    "Remote '"@ + n + "' does not exist. Use 'odi remote add' first."@
}

/// Why setting `key` (designating `k`) to `v` is refused, if it is.
pub open spec fn set_refusal(c: ConfigView, k: KeyView, key: Seq<char>, v: Seq<char>) -> Option<Refusal> {
    match k {
        KeyView::UserName => if is_blank(v) {
            Some(Refusal::Validation("User name cannot be empty"@))
        } else {
            None
        },
        KeyView::UserEmail => if is_blank(v) || !v.contains('@') {
            Some(Refusal::Validation("User email must be a valid email address"@))
        } else {
            None
        },
        KeyView::ProjectName => if is_blank(v) {
            Some(Refusal::Validation("Project name cannot be empty"@))
        } else {
            None
        },
        KeyView::ProjectDescription => None,
        KeyView::ProjectDefaultBranch => None,
        KeyView::RemoteUrl(n) => if !names(c.remotes).contains(n) {
            Some(Refusal::Config(no_remote_to_set(n)))
        } else {
            None
        },
        KeyView::RemoteProtocol(n) => if !(v == "ssh"@ || v == "https"@) {
            Some(Refusal::Validation("Protocol must be 'ssh' or 'https'"@))
        } else if !names(c.remotes).contains(n) {
            Some(Refusal::Config(no_remote_to_set(n)))
        } else {
            None
        },
        KeyView::Unknown => Some(
            Refusal::Config(
                "Unknown configuration key: "@ + key
                    + ". Supported keys: user.name, user.email, project.name, project.description, project.default_branch, remotes.<name>.url, remotes.<name>.protocol"@,
            ),
        ),
    }
}

/// An optional text set from a value: a blank value clears it.
pub open spec fn optional_value(v: Seq<char>) -> Option<Seq<char>> {
    if is_blank(v) { None } else { Some(v) }
}

/// The remotes with the URL of the remote found under `n` replaced.
pub open spec fn with_remote_url(s: Seq<RemoteEntryView>, n: Seq<char>, v: Seq<char>) -> Seq<RemoteEntryView> {
    let i = remote_index(s, n);
    s.update(i, RemoteEntryView { name: s[i].name, url: v, protocol: s[i].protocol })
}

/// The remotes with the protocol of the remote found under `n` replaced.
pub open spec fn with_remote_protocol(s: Seq<RemoteEntryView>, n: Seq<char>, v: Seq<char>) -> Seq<RemoteEntryView> {
    let i = remote_index(s, n);
    s.update(i, RemoteEntryView { name: s[i].name, url: s[i].url, protocol: v })
}

/// The configuration after `k` is set to `v` (when that is not refused).
pub open spec fn config_set(c: ConfigView, k: KeyView, v: Seq<char>) -> ConfigView {
    match k {
        KeyView::UserName => ConfigView { user_name: v, ..c },
        KeyView::UserEmail => ConfigView { user_email: v, ..c },
        KeyView::ProjectName => ConfigView { project_name: v, ..c },
        KeyView::ProjectDescription => ConfigView { project_description: optional_value(v), ..c },
        KeyView::ProjectDefaultBranch => ConfigView { default_branch: optional_value(v), ..c },
        KeyView::RemoteUrl(n) => ConfigView { remotes: with_remote_url(c.remotes, n, v), ..c },
        KeyView::RemoteProtocol(n) => ConfigView { remotes: with_remote_protocol(c.remotes, n, v), ..c },
        KeyView::Unknown => c,
    }
}

/// Replaces one field of the remote at `i`: the URL when `url` holds, else the protocol.
fn replace_remote_field(remotes: &mut Vec<NamedRemote>, i: usize, value: &str, url: bool)
    requires
        i < old(remotes).len(),
    ensures
        entries(final(remotes)@) == entries(old(remotes)@).update(
            i as int,
            if url {
                RemoteEntryView {
                    name: entries(old(remotes)@)[i as int].name,
                    url: value@,
                    protocol: entries(old(remotes)@)[i as int].protocol,
                }
            } else {
                RemoteEntryView {
                    name: entries(old(remotes)@)[i as int].name,
                    url: entries(old(remotes)@)[i as int].url,
                    protocol: value@,
                }
            },
        ),
        names(entries(final(remotes)@)) == names(entries(old(remotes)@)),
{
    let ghost before = remotes@;
    let old_entry = &remotes[i];
    let name = copy_str(old_entry.name.as_str());
    let new_url = if url { copy_str(value) } else { copy_str(old_entry.remote.url.as_str()) };
    let new_protocol = if url { copy_str(old_entry.remote.protocol.as_str()) } else { copy_str(value) };
    let r = NamedRemote { name, remote: RemoteConfig { url: new_url, protocol: new_protocol } };
    remotes.set(i, r);
    assert(entries(remotes@) =~= entries(before).update(i as int, r@));
    assert(names(entries(remotes@)) =~= names(entries(before)));
}

/// The refusal of a change to a remote that does not exist.
fn missing_remote(name: &str, tail: &str) -> (r: Result<(), OdiError>)
    ensures
        refused_as(r, Refusal::Config("Remote '"@ + name@ + tail@)),
{
    let mut m = copy_str("Remote '");
    m.append(name);
    m.append(tail);
    Err(OdiError::Config { message: m })
}

/// Sets the value under a dotted key. Names, the email and the protocol must be
/// acceptable; a blank description or default branch clears it; a remote's field can
/// only be set on a remote that exists. A refused change leaves the configuration as it
/// was.
pub fn set_value_by_path(config: &mut Config, key: &str, value: &str) -> (r: Result<(), OdiError>)
    ensures
        match set_refusal(old(config)@, key_of(key@), key@, value@) {
            None => r is Ok && final(config)@ == config_set(old(config)@, key_of(key@), value@),
            Some(f) => refused_as(r, f) && final(config)@ == old(config)@,
        },
        names(final(config)@.remotes) == names(old(config)@.remotes),
        remotes_wf(old(config)@.remotes) ==> remotes_wf(final(config)@.remotes),
{
    match parse_key(key) {
        ConfigKey::UserName => {
            if str_is_blank(value) {
                return Err(OdiError::Validation { message: copy_str("User name cannot be empty") });
            }
            config.user.name = copy_str(value);
        },
        ConfigKey::UserEmail => {
            if str_is_blank(value) || !crate::text::str_contains_char(value, '@') {
                return Err(
                    OdiError::Validation { message: copy_str("User email must be a valid email address") },
                );
            }
            config.user.email = copy_str(value);
        },
        ConfigKey::ProjectName => {
            if str_is_blank(value) {
                return Err(OdiError::Validation { message: copy_str("Project name cannot be empty") });
            }
            config.project.name = copy_str(value);
        },
        ConfigKey::ProjectDescription => {
            config.project.description = if str_is_blank(value) {
                None
            } else {
                Some(copy_str(value))
            };
        },
        ConfigKey::ProjectDefaultBranch => {
            config.project.default_branch = if str_is_blank(value) {
                None
            } else {
                Some(copy_str(value))
            };
        },
        ConfigKey::RemoteUrl(n) => {
            match find_remote_index(&config.remotes, n.as_str()) {
                Some(i) => {
                    replace_remote_field(&mut config.remotes, i, value, true);
                },
                None => {
                    return missing_remote(n.as_str(), "' does not exist. Use 'odi remote add' first.");
                },
            }
        },
        ConfigKey::RemoteProtocol(n) => {
            if !(str_eq(value, "ssh") || str_eq(value, "https")) {
                return Err(OdiError::Validation { message: copy_str("Protocol must be 'ssh' or 'https'") });
            }
            match find_remote_index(&config.remotes, n.as_str()) {
                Some(i) => {
                    replace_remote_field(&mut config.remotes, i, value, false);
                },
                None => {
                    return missing_remote(n.as_str(), "' does not exist. Use 'odi remote add' first.");
                },
            }
        },
        ConfigKey::Unknown => {
            let mut m = copy_str("Unknown configuration key: ");
            m.append(key);
            m.append(
                ". Supported keys: user.name, user.email, project.name, project.description, project.default_branch, remotes.<name>.url, remotes.<name>.protocol",
            );
            return Err(OdiError::Config { message: m });
        },
    }
    Ok(())
}

/// Why clearing `key` (designating `k`) is refused, if it is.
pub open spec fn unset_refusal(c: ConfigView, k: KeyView, key: Seq<char>) -> Option<Refusal> {
    match k {
        KeyView::RemoteUrl(n) => if !names(c.remotes).contains(n) {
            Some(Refusal::Config("Remote '"@ + n + "' does not exist"@))
        } else {
            None
        },
        KeyView::RemoteProtocol(n) => if !names(c.remotes).contains(n) {
            Some(Refusal::Config("Remote '"@ + n + "' does not exist"@))
        } else {
            None
        },
        KeyView::Unknown => Some(Refusal::Config("Cannot unset configuration key: "@ + key)),
        _ => None,
    }
}

/// The configuration after `k` is cleared: required texts become empty, optional ones
/// absent, and a remote's protocol goes back to `ssh`.
pub open spec fn config_unset(c: ConfigView, k: KeyView) -> ConfigView {
    match k {
        KeyView::UserName => ConfigView { user_name: Seq::empty(), ..c },
        KeyView::UserEmail => ConfigView { user_email: Seq::empty(), ..c },
        KeyView::ProjectName => ConfigView { project_name: Seq::empty(), ..c },
        KeyView::ProjectDescription => ConfigView { project_description: None, ..c },
        KeyView::ProjectDefaultBranch => ConfigView { default_branch: None, ..c },
        KeyView::RemoteUrl(n) => ConfigView { remotes: with_remote_url(c.remotes, n, Seq::empty()), ..c },
        KeyView::RemoteProtocol(n) => ConfigView { remotes: with_remote_protocol(c.remotes, n, "ssh"@), ..c },
        KeyView::Unknown => c,
    }
}

/// Clears the value under a dotted key. A refused change leaves the configuration as
/// it was.
pub fn unset_value_by_path(config: &mut Config, key: &str) -> (r: Result<(), OdiError>)
    ensures
        match unset_refusal(old(config)@, key_of(key@), key@) {
            None => r is Ok && final(config)@ == config_unset(old(config)@, key_of(key@)),
            Some(f) => refused_as(r, f) && final(config)@ == old(config)@,
        },
        names(final(config)@.remotes) == names(old(config)@.remotes),
        remotes_wf(old(config)@.remotes) ==> remotes_wf(final(config)@.remotes),
{
    match parse_key(key) {
        ConfigKey::UserName => {
            config.user.name = String::new();
        },
        ConfigKey::UserEmail => {
            config.user.email = String::new();
        },
        ConfigKey::ProjectName => {
            config.project.name = String::new();
        },
        ConfigKey::ProjectDescription => {
            config.project.description = None;
        },
        ConfigKey::ProjectDefaultBranch => {
            config.project.default_branch = None;
        },
        ConfigKey::RemoteUrl(n) => {
            match find_remote_index(&config.remotes, n.as_str()) {
                Some(i) => {
                    proof {
                        reveal_strlit("");
                    }
                    replace_remote_field(&mut config.remotes, i, "", true);
                    assert(""@ =~= Seq::<char>::empty());
                },
                None => {
                    return missing_remote(n.as_str(), "' does not exist");
                },
            }
        },
        ConfigKey::RemoteProtocol(n) => {
            match find_remote_index(&config.remotes, n.as_str()) {
                Some(i) => {
                    replace_remote_field(&mut config.remotes, i, "ssh", false);
                },
                None => {
                    return missing_remote(n.as_str(), "' does not exist");
                },
            }
        },
        ConfigKey::Unknown => {
            let mut m = copy_str("Cannot unset configuration key: ");
            m.append(key);
            return Err(OdiError::Config { message: m });
        },
    }
    Ok(())
}

/// The configuration after a section is reset, or `None` for an unknown section.
pub open spec fn config_reset(c: ConfigView, section: Seq<char>) -> Option<ConfigView> {
    if section == "user"@ {
        Some(ConfigView { user_name: Seq::empty(), user_email: Seq::empty(), ..c })
    } else if section == "project"@ {
        Some(ConfigView { project_name: Seq::empty(), project_description: None, default_branch: None, ..c })
    } else if section == "remotes"@ {
        Some(ConfigView { remotes: Seq::empty(), ..c })
    } else {
        None
    }
}

/// Resets a section (`user`, `project` or `remotes`) to empty values; refuses any other
/// section and leaves the configuration as it was.
pub fn reset_section(config: &mut Config, section: &str) -> (r: Result<(), OdiError>)
    ensures
        match config_reset(old(config)@, section@) {
            Some(c) => r is Ok && final(config)@ == c,
            None => refused_as(
                r,
                Refusal::Config(
                    "Unknown configuration section: "@ + section@
                        + ". Supported sections: user, project, remotes"@,
                ),
            ) && final(config)@ == old(config)@,
        },
        remotes_wf(old(config)@.remotes) ==> remotes_wf(final(config)@.remotes),
{
    if str_eq(section, "user") {
        config.user.name = String::new();
        config.user.email = String::new();
        Ok(())
    } else if str_eq(section, "project") {
        config.project.name = String::new();
        config.project.description = None;
        config.project.default_branch = None;
        Ok(())
    } else if str_eq(section, "remotes") {
        config.remotes = Vec::new();
        assert(entries(config.remotes@) =~= Seq::<RemoteEntryView>::empty());
        assert(names(entries(config.remotes@)) =~= Seq::<Seq<char>>::empty());
        Ok(())
    } else {
        let mut m = copy_str("Unknown configuration section: ");
        m.append(section);
        m.append(". Supported sections: user, project, remotes");
        Err(OdiError::Config { message: m })
    }
}

/// What a key reads right after it was set to `v`: `v` itself, except that a blank
/// description or default branch reads as absent.
pub open spec fn stored_value(k: KeyView, v: Seq<char>) -> Option<Seq<char>> {
    match k {
        KeyView::ProjectDescription => optional_value(v),
        KeyView::ProjectDefaultBranch => optional_value(v),
        _ => Some(v),
    }
}

/// Replacing a field of the remote found under `n` is putting the changed entry in place.
proof fn lemma_field_change_is_upsert(s: Seq<RemoteEntryView>, n: Seq<char>, v: Seq<char>)
    requires
        names(s).contains(n),
    ensures
        with_remote_url(s, n, v) == upserted(s, RemoteEntryView { name: n, url: v, protocol: s[remote_index(s, n)].protocol }),
        with_remote_protocol(s, n, v) == upserted(s, RemoteEntryView { name: n, url: s[remote_index(s, n)].url, protocol: v }),
{
    lemma_contains_first(s, n);
}

/// Read after write: once setting a key to a value is accepted, reading that key gives
/// the value back (a blank description or default branch reads as absent).
pub proof fn lemma_set_then_get(c: ConfigView, key: Seq<char>, v: Seq<char>)
    requires
        set_refusal(c, key_of(key), key, v) is None,
    ensures
        config_get(config_set(c, key_of(key), v), key_of(key)) == stored_value(key_of(key), v),
{
    match key_of(key) {
        KeyView::RemoteUrl(n) => {
            lemma_field_change_is_upsert(c.remotes, n, v);
            lemma_upserted_lookup(c.remotes, RemoteEntryView { name: n, url: v, protocol: c.remotes[remote_index(c.remotes, n)].protocol }, n);
        },
        KeyView::RemoteProtocol(n) => {
            lemma_field_change_is_upsert(c.remotes, n, v);
            lemma_upserted_lookup(c.remotes, RemoteEntryView { name: n, url: c.remotes[remote_index(c.remotes, n)].url, protocol: v }, n);
        },
        _ => {},
    }
}

/// Setting a key changes no other key: every other key reads what it read before.
pub proof fn lemma_set_keeps_other_keys(c: ConfigView, key: Seq<char>, v: Seq<char>, other: Seq<char>)
    requires
        set_refusal(c, key_of(key), key, v) is None,
        key_of(other) != key_of(key),
    ensures
        config_get(config_set(c, key_of(key), v), key_of(other)) == config_get(c, key_of(other)),
{
    let k = key_of(key);
    match k {
        KeyView::RemoteUrl(n) => {
            let e = RemoteEntryView { name: n, url: v, protocol: c.remotes[remote_index(c.remotes, n)].protocol };
            lemma_field_change_is_upsert(c.remotes, n, v);
            match key_of(other) {
                KeyView::RemoteUrl(m) => { lemma_upserted_lookup(c.remotes, e, m); },
                KeyView::RemoteProtocol(m) => {
                    lemma_upserted_lookup(c.remotes, e, m);
                    lemma_contains_first(c.remotes, n);
                },
                _ => {},
            }
        },
        KeyView::RemoteProtocol(n) => {
            let e = RemoteEntryView { name: n, url: c.remotes[remote_index(c.remotes, n)].url, protocol: v };
            lemma_field_change_is_upsert(c.remotes, n, v);
            match key_of(other) {
                KeyView::RemoteUrl(m) => {
                    lemma_upserted_lookup(c.remotes, e, m);
                    lemma_contains_first(c.remotes, n);
                },
                KeyView::RemoteProtocol(m) => { lemma_upserted_lookup(c.remotes, e, m); },
                _ => {},
            }
        },
        _ => {},
    }
}

/// What a key reads right after it was cleared.
pub open spec fn cleared_value(k: KeyView) -> Option<Seq<char>> {
    match k {
        KeyView::ProjectDescription => None,
        KeyView::ProjectDefaultBranch => None,
        KeyView::RemoteProtocol(_) => Some("ssh"@),
        KeyView::Unknown => None,
        _ => Some(Seq::empty()),
    }
}

/// Once clearing a key is accepted, the key reads as cleared.
pub proof fn lemma_unset_then_get(c: ConfigView, key: Seq<char>)
    requires
        unset_refusal(c, key_of(key), key) is None,
    ensures
        config_get(config_unset(c, key_of(key)), key_of(key)) == cleared_value(key_of(key)),
{
    match key_of(key) {
        KeyView::RemoteUrl(n) => {
            lemma_field_change_is_upsert(c.remotes, n, Seq::empty());
            lemma_upserted_lookup(c.remotes, RemoteEntryView { name: n, url: Seq::empty(), protocol: c.remotes[remote_index(c.remotes, n)].protocol }, n);
        },
        KeyView::RemoteProtocol(n) => {
            lemma_field_change_is_upsert(c.remotes, n, "ssh"@);
            lemma_upserted_lookup(c.remotes, RemoteEntryView { name: n, url: c.remotes[remote_index(c.remotes, n)].url, protocol: "ssh"@ }, n);
        },
        _ => {},
    }
}

/// Resetting the remotes section forgets every remote: afterwards no remote key reads
/// anything, and the user and project sections are as they were.
pub proof fn lemma_reset_remotes_forgets_them(c: ConfigView, key: Seq<char>)
    requires
        key_of(key) is RemoteUrl || key_of(key) is RemoteProtocol,
    ensures
        config_reset(c, "remotes"@) matches Some(r) && config_get(r, key_of(key)) is None
            && r.user_name == c.user_name && r.user_email == c.user_email && r.project_name == c.project_name
            && r.project_description == c.project_description && r.default_branch == c.default_branch,
{
    reveal_strlit("remotes");
    reveal_strlit("user");
    reveal_strlit("project");
    assert("remotes"@ != "user"@) by {
        assert("remotes"@.len() != "user"@.len());
    }
    assert("remotes"@ != "project"@) by {
        assert("remotes"@[0] != "project"@[0]);
    }
    let r = ConfigView { remotes: Seq::empty(), ..c };
    assert(config_reset(c, "remotes"@) == Some(r));
    assert(names(r.remotes) =~= Seq::<Seq<char>>::empty());
}

/// The two lines `config list` prints for each remote, in order.
pub open spec fn remote_lines(s: Seq<RemoteEntryView>) -> Seq<Seq<char>>
    decreases s.len(),
{
    if s.len() == 0 {
        Seq::empty()
    } else {
        remote_lines(s.drop_last()) + seq![
            "  remotes."@ + s.last().name + ".url = "@ + s.last().url,
            "  remotes."@ + s.last().name + ".protocol = "@ + s.last().protocol,
        ]
    }
}

/// The lines `config list` prints: the user section, the project section with the
/// optional values that are set, and the remotes section when there are remotes.
pub open spec fn config_listing(c: ConfigView) -> Seq<Seq<char>> {
    seq!["USER"@, "  user.name = "@ + c.user_name, "  user.email = "@ + c.user_email, Seq::empty(), "PROJECT"@,
        "  project.name = "@ + c.project_name]
        + match c.project_description {
            Some(d) => seq!["  project.description = "@ + d],
            None => Seq::empty(),
        }
        + match c.default_branch {
            Some(b) => seq!["  project.default_branch = "@ + b],
            None => Seq::empty(),
        }
        + seq![Seq::empty()]
        + if c.remotes.len() == 0 {
            Seq::empty()
        } else {
            seq!["REMOTES"@] + remote_lines(c.remotes)
        }
}

/// Appends a line made of `a` and `b`.
fn push_line(lines: &mut Vec<String>, a: &str, b: &str)
    ensures
        views(final(lines)@) == views(old(lines)@).push(a@ + b@),
{
    let mut l = copy_str(a);
    l.append(b);
    let ghost before = views(lines@);
    lines.push(l);
    assert(views(lines@) =~= before.push(a@ + b@));
}

/// The lines `config list` prints for a configuration.
pub fn list_lines(config: &Config) -> (r: Vec<String>)
    ensures
        views(r@) == config_listing(config@),
{
    proof {
        reveal_strlit("");
    }
    let mut lines: Vec<String> = Vec::new();
    push_line(&mut lines, "USER", "");
    push_line(&mut lines, "  user.name = ", config.user.name.as_str());
    push_line(&mut lines, "  user.email = ", config.user.email.as_str());
    push_line(&mut lines, "", "");
    push_line(&mut lines, "PROJECT", "");
    push_line(&mut lines, "  project.name = ", config.project.name.as_str());
    let ghost head = views(lines@);
    assert(""@ =~= Seq::<char>::empty());
    assert(head =~= seq!["USER"@, "  user.name = "@ + config@.user_name, "  user.email = "@ + config@.user_email,
        Seq::empty(), "PROJECT"@, "  project.name = "@ + config@.project_name]);
    match &config.project.description {
        Some(d) => push_line(&mut lines, "  project.description = ", d.as_str()),
        None => {},
    }
    match &config.project.default_branch {
        Some(b) => push_line(&mut lines, "  project.default_branch = ", b.as_str()),
        None => {},
    }
    push_line(&mut lines, "", "");
    let ghost before_remotes = views(lines@);
    assert(before_remotes =~= head + match config@.project_description {
        Some(d) => seq!["  project.description = "@ + d],
        None => Seq::<Seq<char>>::empty(),
    } + match config@.default_branch {
        Some(b) => seq!["  project.default_branch = "@ + b],
        None => Seq::<Seq<char>>::empty(),
    } + seq![Seq::<char>::empty()]);
    if config.remotes.len() > 0 {
        push_line(&mut lines, "REMOTES", "");
        let ghost start = views(lines@);
        let mut i: usize = 0;
        while i < config.remotes.len()
            invariant
                i <= config.remotes@.len(),
                views(lines@) == start + remote_lines(entries(config.remotes@).take(i as int)),
            decreases config.remotes.len() - i,
        {
            let r = &config.remotes[i];
            let ghost mid = views(lines@);
            let mut url_label = copy_str("  remotes.");
            url_label.append(r.name.as_str());
            url_label.append(".url = ");
            push_line(&mut lines, url_label.as_str(), r.remote.url.as_str());
            let mut protocol_label = copy_str("  remotes.");
            protocol_label.append(r.name.as_str());
            protocol_label.append(".protocol = ");
            push_line(&mut lines, protocol_label.as_str(), r.remote.protocol.as_str());
            proof {
                let t = entries(config.remotes@).take(i + 1);
                assert(t.drop_last() =~= entries(config.remotes@).take(i as int));
                assert(t.last() == config.remotes@[i as int]@);
            }
            i = i + 1;
        }
        assert(entries(config.remotes@).take(config.remotes@.len() as int) =~= entries(config.remotes@));
    } else {
        assert(entries(config.remotes@).len() == 0);
    }
    lines
}

} // verus!
