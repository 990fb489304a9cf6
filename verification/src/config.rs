//! Configuration: the user, project and remotes sections, how a local configuration
//! overrides a global one, what makes a configuration valid, and reading and writing
//! single values by their dotted keys.

use vstd::prelude::*;
use crate::errors::{FsError, OdiError};
use crate::text::{
    after_char, before_char, copy_opt, copy_str, first_index, has_prefix, is_blank,
    lemma_first_index, opt_view, str_contains_char, str_eq, str_find_char, str_is_blank, str_starts_with,
    substring,
};

verus! {

broadcast use vstd::seq_lib::group_seq_properties;

/// Who the local user is.
#[derive(Debug, Clone)]
pub struct UserConfig {
    pub name: String,
    pub email: String,
}

/// The default project of a workspace.
#[derive(Debug, Clone)]
pub struct ProjectConfig {
    pub name: String,
    pub description: Option<String>,
    pub default_branch: Option<String>,
}

/// Where a remote lives and how it is reached (`ssh` or `https`).
#[derive(Debug, Clone)]
pub struct RemoteConfig {
    pub url: String,
    pub protocol: String,
}

/// A remote under its name.
#[derive(Debug, Clone)]
pub struct NamedRemote {
    pub name: String,
    pub remote: RemoteConfig,
}

/// A workspace as a configuration file names it.
#[derive(Debug, Clone)]
pub struct WorkspaceConfig {
    pub name: String,
    pub path: String,
    pub projects: Vec<String>,
}

/// A configuration. The remotes are kept in a list keyed by name: a valid configuration
/// holds at most one remote per name ([`remotes_wf`]), and merging keeps that.
#[derive(Debug, Clone)]
pub struct Config {
    pub user: UserConfig,
    pub project: ProjectConfig,
    pub remotes: Vec<NamedRemote>,
}

/// A remote entry, as plain text.
pub struct RemoteEntryView {
    pub name: Seq<char>,
    pub url: Seq<char>,
    pub protocol: Seq<char>,
}

/// A configuration, as plain text.
pub struct ConfigView {
    pub user_name: Seq<char>,
    pub user_email: Seq<char>,
    pub project_name: Seq<char>,
    pub project_description: Option<Seq<char>>,
    pub default_branch: Option<Seq<char>>,
    pub remotes: Seq<RemoteEntryView>,
}

impl View for NamedRemote {
    type V = RemoteEntryView;

    open spec fn view(&self) -> RemoteEntryView {
        RemoteEntryView { name: self.name@, url: self.remote.url@, protocol: self.remote.protocol@ }
    }
}

/// The plain view of a list of remotes.
pub open spec fn entries(v: Seq<NamedRemote>) -> Seq<RemoteEntryView> {
    v.map_values(|r: NamedRemote| r@)
}

impl View for Config {
    type V = ConfigView;

    open spec fn view(&self) -> ConfigView {
        ConfigView {
            user_name: self.user.name@,
            user_email: self.user.email@,
            project_name: self.project.name@,
            project_description: opt_view(self.project.description),
            default_branch: opt_view(self.project.default_branch),
            remotes: entries(self.remotes@),
        }
    }
}

/// The entries' names, in order.
pub open spec fn names(s: Seq<RemoteEntryView>) -> Seq<Seq<char>> {
    s.map_values(|e: RemoteEntryView| e.name)
}

/// At most one remote per name.
pub open spec fn remotes_wf(s: Seq<RemoteEntryView>) -> bool {
    names(s).no_duplicates()
}

/// Position of the remote named `name` (meaningful when there is one).
#[verifier::opaque]
pub open spec fn remote_index(s: Seq<RemoteEntryView>, name: Seq<char>) -> int {
    choose|i: int| 0 <= i < s.len() && s[i].name == name && forall|j: int| 0 <= j < i ==> s[j].name != name
}

/// The first remote named `name`, if any.
pub open spec fn lookup(s: Seq<RemoteEntryView>, name: Seq<char>) -> Option<RemoteEntryView> {
    if names(s).contains(name) {
        Some(s[remote_index(s, name)])
    } else {
        None
    }
}

/// The remote index is the first position holding the name.
proof fn lemma_remote_index(s: Seq<RemoteEntryView>, name: Seq<char>, i: int)
    requires
        0 <= i < s.len(),
        s[i].name == name,
        forall|j: int| 0 <= j < i ==> s[j].name != name,
    ensures
        remote_index(s, name) == i,
        names(s).contains(name),
{
    assert(names(s)[i] == name);
    reveal(remote_index);
    let f = remote_index(s, name);
    if f < i {
        assert(s[f].name != name);
    } else if f > i {
        assert(s[i].name != name);
    }
}

/// Position of the remote named `name` in `v`, if any.
pub(crate) fn find_remote_index(v: &Vec<NamedRemote>, name: &str) -> (r: Option<usize>)
    ensures
        r matches Some(i) ==> i < v@.len() && remote_index(entries(v@), name@) == i && names(entries(v@)).contains(name@),
        r is None ==> !names(entries(v@)).contains(name@),
{
    let mut i: usize = 0;
    while i < v.len()
        invariant
            i <= v.len(),
            forall|j: int| 0 <= j < i ==> entries(v@)[j].name != name@,
        decreases v.len() - i,
    {
        if str_eq(v[i].name.as_str(), name) {
            proof { lemma_remote_index(entries(v@), name@, i as int); }
            return Some(i);
        }
        i = i + 1;
    }
    assert forall|j: int| 0 <= j < names(entries(v@)).len() implies names(entries(v@))[j] != name@ by {}
    None
}

/// The built-in configuration.
pub open spec fn default_config_view() -> ConfigView {
    ConfigView {
        user_name: "Unknown User"@,
        user_email: "user@example.com"@,
        project_name: "default"@,
        project_description: None,
        default_branch: Some("main"@),
        remotes: Seq::empty(),
    }
}

impl Default for Config {
    fn default() -> (c: Self)
        ensures
            c@ == default_config_view(),
            remotes_wf(c@.remotes),
    {
        proof {
            reveal_strlit("Unknown User");
            reveal_strlit("user@example.com");
            reveal_strlit("default");
            reveal_strlit("main");
        }
        let c = Config {
            user: UserConfig { name: copy_str("Unknown User"), email: copy_str("user@example.com") },
            project: ProjectConfig {
                name: copy_str("default"),
                description: None,
                default_branch: Some(copy_str("main")),
            },
            remotes: Vec::new(),
        };
        assert(entries(c.remotes@) =~= Seq::<RemoteEntryView>::empty());
        assert(names(entries(c.remotes@)) =~= Seq::<Seq<char>>::empty());
        c
    }
}

/// The remotes of `g` with each remote of `l` put in place of the one of the same name,
/// or added after them, in the order of `l`.
pub open spec fn overlay(g: Seq<RemoteEntryView>, l: Seq<RemoteEntryView>) -> Seq<RemoteEntryView>
    decreases l.len(),
{
    if l.len() == 0 {
        g
    } else {
        upserted(overlay(g, l.drop_last()), l.last())
    }
}

/// `s` with `e` in place of the remote of the same name, or added at the end.
pub open spec fn upserted(s: Seq<RemoteEntryView>, e: RemoteEntryView) -> Seq<RemoteEntryView> {
    if names(s).contains(e.name) {
        s.update(remote_index(s, e.name), e)
    } else {
        s.push(e)
    }
}

/// Merging: the local configuration wins. With both present, the user and project sections
/// come from the local one and its remotes are laid over the global ones.
pub open spec fn merged(global: Option<ConfigView>, local: Option<ConfigView>) -> ConfigView {
    match (global, local) {
        (None, None) => default_config_view(),
        (Some(g), None) => g,
        (None, Some(l)) => l,
        (Some(g), Some(l)) => ConfigView {
            user_name: l.user_name,
            user_email: l.user_email,
            project_name: l.project_name,
            project_description: l.project_description,
            default_branch: l.default_branch,
            remotes: overlay(g.remotes, l.remotes),
        },
    }
}

/// The plain view of an optional configuration.
pub open spec fn config_opt_view(c: Option<Config>) -> Option<ConfigView> {
    match c {
        Some(c) => Some(c@),
        None => None,
    }
}

/// A remote named `name` sits at `w`, so there is a first one, and [`remote_index`] is it.
proof fn lemma_first_remote(s: Seq<RemoteEntryView>, name: Seq<char>, w: int)
    requires
        0 <= w < s.len(),
        s[w].name == name,
    ensures
        0 <= remote_index(s, name) <= w,
        s[remote_index(s, name)].name == name,
        forall|j: int| 0 <= j < remote_index(s, name) ==> s[j].name != name,
        names(s).contains(name),
    decreases w,
{
    if exists|j: int| 0 <= j < w && s[j].name == name {
        let j = choose|j: int| 0 <= j < w && s[j].name == name;
        lemma_first_remote(s, name, j);
    } else {
        lemma_remote_index(s, name, w);
    }
}

/// When some remote is named `name`, [`remote_index`] is the first such position.
pub proof fn lemma_contains_first(s: Seq<RemoteEntryView>, name: Seq<char>)
    requires
        names(s).contains(name),
    ensures
        0 <= remote_index(s, name) < s.len(),
        s[remote_index(s, name)].name == name,
        forall|j: int| 0 <= j < remote_index(s, name) ==> s[j].name != name,
{
    let w = choose|w: int| 0 <= w < names(s).len() && names(s)[w] == name;
    lemma_first_remote(s, name, w);
}

/// After putting `e` in place, a lookup of `e`'s name finds `e`, and a lookup of any
/// other name finds what it found before.
pub proof fn lemma_upserted_lookup(s: Seq<RemoteEntryView>, e: RemoteEntryView, n: Seq<char>)
    ensures
        lookup(upserted(s, e), n) == if n == e.name { Some(e) } else { lookup(s, n) },
{
    let u = upserted(s, e);
    if names(s).contains(e.name) {
        lemma_contains_first(s, e.name);
        let k = remote_index(s, e.name);
        if n == e.name {
            lemma_remote_index(u, n, k);
        } else if names(s).contains(n) {
            lemma_contains_first(s, n);
            let j = remote_index(s, n);
            assert forall|m: int| 0 <= m < j implies u[m].name != n by {
                if m != k {
                    assert(u[m] == s[m]);
                }
            }
            lemma_remote_index(u, n, j);
        } else {
            assert forall|m: int| 0 <= m < names(u).len() implies names(u)[m] != n by {
                if m != k {
                    assert(names(s)[m] == s[m].name);
                }
            }
        }
    } else {
        let m0 = s.len() as int;
        if n == e.name {
            assert forall|j: int| 0 <= j < m0 implies u[j].name != n by {
                assert(names(s)[j] == s[j].name);
            }
            lemma_remote_index(u, n, m0);
        } else if names(s).contains(n) {
            lemma_contains_first(s, n);
            let j = remote_index(s, n);
            assert forall|m: int| 0 <= m < j implies u[m].name != n by {
                assert(u[m] == s[m]);
            }
            lemma_remote_index(u, n, j);
        } else {
            assert forall|m: int| 0 <= m < names(u).len() implies names(u)[m] != n by {
                if m < m0 {
                    assert(names(s)[m] == s[m].name);
                }
            }
        }
    }
}

/// Putting a remote in place keeps at most one remote per name.
proof fn lemma_upserted_wf(s: Seq<RemoteEntryView>, e: RemoteEntryView)
    requires
        remotes_wf(s),
    ensures
        remotes_wf(upserted(s, e)),
{
    let u = upserted(s, e);
    if names(s).contains(e.name) {
        lemma_contains_first(s, e.name);
        assert(names(u) =~= names(s));
    } else {
        let ns = names(s);
        assert(names(u) =~= ns.push(e.name));
        assert forall|i: int, j: int|
            0 <= i < ns.len() + 1 && 0 <= j < ns.len() + 1 && i != j
            implies #[trigger] ns.push(e.name)[i] != #[trigger] ns.push(e.name)[j] by {
            if i < ns.len() && j < ns.len() {
                assert(ns[i] != ns[j]);
            } else if i < ns.len() {
                assert(ns.push(e.name)[i] == ns[i]);
            } else {
                assert(ns.push(e.name)[j] == ns[j]);
            }
        }
    }
}

/// Puts a remote in place of the one with the same name, or adds it at the end.
fn upsert(v: &mut Vec<NamedRemote>, r: NamedRemote)
    ensures
        entries(final(v)@) == upserted(entries(old(v)@), r@),
{
    match find_remote_index(v, r.name.as_str()) {
        Some(i) => {
            let ghost before = v@;
            v.set(i, r);
            assert(entries(v@) =~= entries(before).update(i as int, r@));
        },
        None => {
            let ghost before = v@;
            v.push(r);
            assert(entries(v@) =~= entries(before).push(r@));
        },
    }
}

/// The first problem of a list of remotes, in order: an empty name, an empty URL,
/// or a protocol other than `ssh` and `https`.
pub open spec fn remotes_problem(s: Seq<RemoteEntryView>) -> Option<Seq<char>>
    decreases s.len(),
{
    if s.len() == 0 {
        None
    } else if is_blank(s[0].name) {
        Some("Remote name cannot be empty"@)
    } else if is_blank(s[0].url) {
        Some("Remote '"@ + s[0].name + "' URL cannot be empty"@)
    } else if !(s[0].protocol == "ssh"@ || s[0].protocol == "https"@) {
        Some("Remote '"@ + s[0].name + "' protocol must be 'ssh' or 'https'"@)
    } else {
        remotes_problem(s.drop_first())
    }
}

/// The first problem of a configuration, if any, as the message it is refused with.
pub open spec fn config_problem(c: ConfigView) -> Option<Seq<char>> {
    if is_blank(c.user_name) {
        Some("User name cannot be empty"@)
    } else if is_blank(c.user_email) {
        Some("User email cannot be empty"@)
    } else if !c.user_email.contains('@') {
        Some("User email must be valid"@)
    } else if is_blank(c.project_name) {
        Some("Project name cannot be empty"@)
    } else {
        remotes_problem(c.remotes)
    }
}

/// Whether a remote breaks none of the rules: a non-blank name, a non-blank URL, and
/// the protocol `ssh` or `https`.
pub open spec fn remote_acceptable(e: RemoteEntryView) -> bool {
    !is_blank(e.name) && !is_blank(e.url) && (e.protocol == "ssh"@ || e.protocol == "https"@)
}

/// A list of remotes has no problem exactly when every remote in it, not only the
/// first, has a non-blank name, a non-blank URL and the protocol `ssh` or `https`; when
/// one breaks a rule, the problem reported is that of the first remote that does.
pub proof fn lemma_remotes_checked_all(s: Seq<RemoteEntryView>)
    ensures
        remotes_problem(s) is None <==> forall|i: int| 0 <= i < s.len() ==> #[trigger] remote_acceptable(s[i]),
        remotes_problem(s) is Some ==> exists|k: int| {
            &&& 0 <= k < s.len()
            &&& !remote_acceptable(#[trigger] s[k])
            &&& forall|j: int| 0 <= j < k ==> remote_acceptable(s[j])
            &&& remotes_problem(s) == remotes_problem(s.skip(k))
        },
    decreases s.len(),
{
    if s.len() > 0 {
        lemma_remotes_checked_all(s.drop_first());
        let t = s.drop_first();
        assert forall|i: int| 0 <= i < t.len() implies t[i] == s[i + 1] by {}
        if remote_acceptable(s[0]) {
            assert(remotes_problem(s) == remotes_problem(t));
            if remotes_problem(s) is None {
                assert forall|i: int| 0 <= i < s.len() implies #[trigger] remote_acceptable(s[i]) by {
                    if i > 0 {
                        assert(remote_acceptable(t[i - 1]));
                    }
                }
            } else {
                let k = choose|k: int| {
                    &&& 0 <= k < t.len()
                    &&& !remote_acceptable(#[trigger] t[k])
                    &&& forall|j: int| 0 <= j < k ==> remote_acceptable(t[j])
                    &&& remotes_problem(t) == remotes_problem(t.skip(k))
                };
                assert(t.skip(k) =~= s.skip(k + 1));
                assert(!remote_acceptable(s[k + 1]));
                assert forall|j: int| 0 <= j < k + 1 implies remote_acceptable(s[j]) by {
                    if j > 0 {
                        assert(remote_acceptable(t[j - 1]));
                    }
                }
            }
        } else {
            assert(s.skip(0) =~= s);
            assert(!remote_acceptable(s[0]));
        }
    }
}

/// A configuration is accepted exactly when the user has a non-blank name and a
/// non-blank email with an `@`, the project has a non-blank name, and every remote is
/// acceptable.
pub proof fn lemma_config_accepted(c: ConfigView)
    ensures
        config_problem(c) is None <==> {
            &&& !is_blank(c.user_name)
            &&& !is_blank(c.user_email)
            &&& c.user_email.contains('@')
            &&& !is_blank(c.project_name)
            &&& forall|i: int| 0 <= i < c.remotes.len() ==> #[trigger] remote_acceptable(c.remotes[i])
        },
{
    lemma_remotes_checked_all(c.remotes);
}

/// A configuration that is absent, or holds at most one remote per name.
pub open spec fn one_remote_per_name(c: Option<Config>) -> bool {
    c matches Some(x) ==> remotes_wf(x@.remotes)
}

/// The operations that load, combine and check configurations.
pub trait ConfigLoader {
    /// Combines a global and a local configuration; the local one takes precedence.
    fn merge(global: Option<Config>, local: Option<Config>) -> (c: Config)
        ensures
            c@ == merged(config_opt_view(global), config_opt_view(local)),
            one_remote_per_name(global) && one_remote_per_name(local) ==> remotes_wf(c@.remotes),
    ;

    /// Accepts a configuration without problems; refuses one with its first problem.
    fn validate(config: &Config) -> (r: Result<(), FsError>)
        ensures
            r is Ok <==> config_problem(config@) is None,
            r matches Err(e) ==> e matches FsError::ConfigError { message } && config_problem(config@) == Some(message@),
    ;
}

/// The configuration files of a workspace and of the user's home directory.
#[derive(Debug, Clone)]
pub struct FileConfigLoader;

/// Accepts a list of remotes without problems; refuses one with its first problem.
fn validate_remotes(v: &Vec<NamedRemote>) -> (r: Result<(), FsError>)
    ensures
        r is Ok <==> remotes_problem(entries(v@)) is None,
        r matches Err(e) ==> e matches FsError::ConfigError { message } && remotes_problem(entries(v@)) == Some(message@),
{
    let ghost all = entries(v@);
    let mut i: usize = 0;
    while i < v.len()
        invariant
            all == entries(v@),
            i <= v.len(),
            remotes_problem(all) == remotes_problem(all.skip(i as int)),
        decreases v.len() - i,
    {
        proof {
            reveal_strlit("Remote name cannot be empty");
            reveal_strlit("Remote '");
            reveal_strlit("' URL cannot be empty");
            reveal_strlit("' protocol must be 'ssh' or 'https'");
            reveal_strlit("ssh");
            reveal_strlit("https");
            assert(all.skip(i as int)[0] == v@[i as int]@);
            assert(all.skip(i as int).drop_first() =~= all.skip(i + 1));
        }
        let r = &v[i];
        if str_is_blank(r.name.as_str()) {
            return Err(FsError::ConfigError { message: copy_str("Remote name cannot be empty") });
        }
        if str_is_blank(r.remote.url.as_str()) {
            let mut m = copy_str("Remote '");
            m.append(r.name.as_str());
            m.append("' URL cannot be empty");
            return Err(FsError::ConfigError { message: m });
        }
        let p = r.remote.protocol.as_str();
        if !(str_eq(p, "ssh") || str_eq(p, "https")) {
            let mut m = copy_str("Remote '");
            m.append(r.name.as_str());
            m.append("' protocol must be 'ssh' or 'https'");
            return Err(FsError::ConfigError { message: m });
        }
        i = i + 1;
    }
    assert(all.skip(i as int) =~= Seq::<RemoteEntryView>::empty());
    Ok(())
}

impl ConfigLoader for FileConfigLoader {
    fn merge(global: Option<Config>, local: Option<Config>) -> (c: Config) {
        match (global, local) {
            (None, None) => Config::default(),
            (Some(g), None) => g,
            (None, Some(l)) => l,
            (Some(g), Some(l)) => {
                let mut remotes = g.remotes;
                let ghost gr = entries(remotes@);
                let ghost lr = entries(l.remotes@);
                let mut rest = l.remotes;
                let ghost mut i: int = 0;
                while rest.len() > 0
                    invariant
                        0 <= i <= lr.len(),
                        entries(rest@) == lr.skip(i),
                        entries(remotes@) == overlay(gr, lr.take(i)),
                    decreases rest.len(),
                {
                    let ghost before = rest@;
                    let r = rest.remove(0);
                    proof {
                        assert(rest@ =~= before.subrange(1, before.len() as int));
                        assert(entries(before)[0] == r@);
                        assert(entries(before).len() == before.len());
                        assert(lr.skip(i).len() == lr.len() - i);
                        assert(lr.skip(i)[0] == lr[i]);
                        assert(entries(rest@) =~= entries(before).subrange(1, before.len() as int));
                        assert(entries(rest@) =~= lr.skip(i + 1));
                        assert(lr.take(i + 1).drop_last() =~= lr.take(i));
                        assert(lr.take(i + 1).last() == lr[i]);
                    }
                    upsert(&mut remotes, r);
                    proof { i = i + 1; }
                }
                assert(lr.take(i) =~= lr);
                proof {
                    if remotes_wf(gr) {
                        lemma_overlay_wf(gr, lr);
                    }
                }
                Config { user: l.user, project: l.project, remotes }
            },
        }
    }

    fn validate(config: &Config) -> (r: Result<(), FsError>) {
        proof {
            reveal_strlit("User name cannot be empty");
            reveal_strlit("User email cannot be empty");
            reveal_strlit("User email must be valid");
            reveal_strlit("Project name cannot be empty");
        }
        if str_is_blank(config.user.name.as_str()) {
            return Err(FsError::ConfigError { message: copy_str("User name cannot be empty") });
        }
        if str_is_blank(config.user.email.as_str()) {
            return Err(FsError::ConfigError { message: copy_str("User email cannot be empty") });
        }
        if !str_contains_char(config.user.email.as_str(), '@') {
            return Err(FsError::ConfigError { message: copy_str("User email must be valid") });
        }
        if str_is_blank(config.project.name.as_str()) {
            return Err(FsError::ConfigError { message: copy_str("Project name cannot be empty") });
        }
        validate_remotes(&config.remotes)
    }
}

/// Merging a global and a local configuration, each with at most one remote per name,
/// gives a configuration with at most one remote per name, in which each remote that the
/// local configuration defines is found as the local one defines it, and every other
/// remote as the global one defines it.
pub proof fn lemma_merge_local_wins(g: ConfigView, l: ConfigView, name: Seq<char>)
    requires
        remotes_wf(g.remotes),
        remotes_wf(l.remotes),
    ensures
        remotes_wf(merged(Some(g), Some(l)).remotes),
        lookup(merged(Some(g), Some(l)).remotes, name) == if lookup(l.remotes, name) is Some {
            lookup(l.remotes, name)
        } else {
            lookup(g.remotes, name)
        },
{
    lemma_overlay_wf(g.remotes, l.remotes);
    lemma_overlay(g.remotes, l.remotes, name);
    if names(l.remotes).contains(name) {
        let s = l.remotes;
        lemma_contains_first(s, name);
        let a = remote_index(s, name);
        lemma_last_exists(s, name, a);
        let b = last_index(s, name);
        assert(names(s)[a] == name && names(s)[b] == name);
        assert(a == b);
    }
}

/// Laying remotes over ones with at most one remote per name keeps at most one per name.
proof fn lemma_overlay_wf(g: Seq<RemoteEntryView>, l: Seq<RemoteEntryView>)
    requires
        remotes_wf(g),
    ensures
        remotes_wf(overlay(g, l)),
    decreases l.len(),
{
    if l.len() > 0 {
        lemma_overlay_wf(g, l.drop_last());
        lemma_upserted_wf(overlay(g, l.drop_last()), l.last());
    }
}

/// Laying `l` over `g` lets the last entry of `l` with a name win; other names are
/// found as in `g`.
proof fn lemma_overlay(g: Seq<RemoteEntryView>, l: Seq<RemoteEntryView>, name: Seq<char>)
    ensures
        lookup(overlay(g, l), name) == if names(l).contains(name) {
            Some(l[last_index(l, name)])
        } else {
            lookup(g, name)
        },
    decreases l.len(),
{
    if l.len() > 0 {
        let prev = l.drop_last();
        lemma_overlay(g, prev, name);
        lemma_upserted_lookup(overlay(g, prev), l.last(), name);
        if l.last().name == name {
            assert(names(l)[l.len() - 1] == name);
            lemma_last_index(l, name, l.len() - 1);
        } else if names(prev).contains(name) {
            let k = last_index(prev, name);
            let w = choose|w: int| 0 <= w < names(prev).len() && names(prev)[w] == name;
            lemma_last_exists(prev, name, w);
            assert(names(l)[k] == name);
            assert forall|j: int| k < j < l.len() implies l[j].name != name by {
                if j < prev.len() {
                    assert(prev[j] == l[j]);
                }
            }
            lemma_last_index(l, name, k);
        } else {
            assert forall|j: int| 0 <= j < names(l).len() implies names(l)[j] != name by {
                if j < prev.len() {
                    assert(names(prev)[j] == names(l)[j]);
                }
            }
        }
    } else {
        assert(!names(l).contains(name));
    }
}

/// A remote named `name` sits at `w`, so there is a last one, and [`last_index`] is it.
proof fn lemma_last_exists(s: Seq<RemoteEntryView>, name: Seq<char>, w: int)
    requires
        0 <= w < s.len(),
        s[w].name == name,
    ensures
        w <= last_index(s, name) < s.len(),
        s[last_index(s, name)].name == name,
        forall|j: int| last_index(s, name) < j < s.len() ==> s[j].name != name,
    decreases s.len() - w,
{
    if exists|j: int| w < j < s.len() && s[j].name == name {
        let j = choose|j: int| w < j < s.len() && s[j].name == name;
        lemma_last_exists(s, name, j);
    } else {
        lemma_last_index(s, name, w);
    }
}

/// Position of the last remote named `name` (meaningful when there is one).
#[verifier::opaque]
pub open spec fn last_index(s: Seq<RemoteEntryView>, name: Seq<char>) -> int {
    choose|i: int| 0 <= i < s.len() && s[i].name == name && forall|j: int| i < j < s.len() ==> s[j].name != name
}

/// The last position holding the name is [`last_index`].
proof fn lemma_last_index(s: Seq<RemoteEntryView>, name: Seq<char>, i: int)
    requires
        0 <= i < s.len(),
        s[i].name == name,
        forall|j: int| i < j < s.len() ==> s[j].name != name,
    ensures
        last_index(s, name) == i,
{
    reveal(last_index);
    let f = last_index(s, name);
    if f < i {
        assert(s[i].name != name);
    } else if f > i {
        assert(s[f].name != name);
    }
}

/// The built-in configuration has no problem.
pub proof fn lemma_default_config_is_valid()
    ensures
        config_problem(default_config_view()) is None,
{
    reveal_strlit("Unknown User");
    reveal_strlit("user@example.com");
    reveal_strlit("default");
    assert(!is_blank("Unknown User"@)) by { assert("Unknown User"@[0] == 'U'); }
    assert(!is_blank("user@example.com"@)) by { assert("user@example.com"@[0] == 'u'); }
    assert("user@example.com"@[4] == '@');
    assert(!is_blank("default"@)) by { assert("default"@[0] == 'd'); }
}

} // verus!
