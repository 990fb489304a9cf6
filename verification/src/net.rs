//! Talking to remotes: protocols and credentials, authentication tokens, the sync
//! client a connection yields, and the exact `ssh`/`scp` invocations that the SSH
//! transport runs. Running processes and HTTP requests is left to the caller.

use vstd::prelude::*;
use crate::clock::{now, Timestamp};
use crate::errors::NetError;
use crate::ids::{issue_id_text, random_id, uuid_text, IssueId};
use crate::issue::{IssueStatus, Priority};
use crate::remote::Remote;
use crate::text::{copy_opt, copy_str, opt_view, str_eq, views};

verus! {

/// The transport of a remote.
#[derive(Debug, Clone, Copy, PartialEq, Eq, Structural)]
pub enum Protocol {
    SSH,
    HTTPS,
}

/// How a remote is authenticated.
#[derive(Debug, Clone)]
pub enum Credential {
    SshKey { path: String, passphrase: Option<String> },
    Token { value: String },
    OAuth { client_id: String, refresh_token: String },
}

/// What authentication yields: the token sent with each request.
#[derive(Debug, Clone)]
pub struct AuthToken {
    pub token: String,
    pub expires_at: Option<Timestamp>,
    pub refresh_token: Option<String>,
}

/// Size, checksum and modification time of a remote object.
#[derive(Debug, Clone)]
pub struct SyncMetadata {
    pub last_modified: Timestamp,
    pub checksum: String,
    pub size: usize,
}

/// What a remote lists about an issue.
#[derive(Debug, Clone)]
pub struct IssueMetadata {
    pub id: IssueId,
    pub title: String,
    pub status: IssueStatus,
    pub priority: Priority,
    pub last_modified: Timestamp,
    pub checksum: String,
}

/// The synchronisation state of a remote.
#[derive(Debug, Clone)]
pub struct RemoteSyncState {
    pub remote_name: String,
    pub last_sync: Option<Timestamp>,
    pub total_issues: u32,
    pub pending_changes: u32,
}

/// A connection to a remote: its URL, its protocol (`ssh` or `https`) and a session
/// identifier.
#[derive(Debug, Clone)]
pub struct SyncClient {
    pub remote_url: String,
    pub protocol: String,
    pub session_id: String,
}

impl SyncClient {
    /// A client for `remote_url` over `protocol`, with a fresh random session
    /// identifier (a hyphenated UUID).
    pub fn new(remote_url: String, protocol: String) -> (c: Self)
        ensures
            c.remote_url@ == remote_url@,
            c.protocol@ == protocol@,
            exists|id: u128| c.session_id@ == uuid_text(id),
    {
        let id = random_id();
        SyncClient { remote_url, protocol, session_id: issue_id_text(id) }
    }
}

// ---------------------------------------------------------------------------------
// URLs

/// The parts of a parsed URL.
#[derive(Debug, Clone)]
pub struct UrlParts {
    pub scheme: String,
    pub host: Option<String>,
    pub port: Option<u16>,
    pub path: String,
    pub username: String,
    pub password: Option<String>,
}

/// Why `url::Url::parse` refuses a text, as its error prints; `None` when it parses.
pub uninterp spec fn url_parse_error(text: Seq<char>) -> Option<Seq<char>>;

/// `Url::scheme` of the parsed text.
pub uninterp spec fn url_scheme(text: Seq<char>) -> Seq<char>;

/// `Url::host_str` of the parsed text.
pub uninterp spec fn url_host(text: Seq<char>) -> Option<Seq<char>>;

/// `Url::port` of the parsed text.
pub uninterp spec fn url_port(text: Seq<char>) -> Option<u16>;

/// `Url::path` of the parsed text.
pub uninterp spec fn url_path(text: Seq<char>) -> Seq<char>;

/// `Url::username` of the parsed text.
pub uninterp spec fn url_username(text: Seq<char>) -> Seq<char>;

/// `Url::password` of the parsed text.
pub uninterp spec fn url_password(text: Seq<char>) -> Option<Seq<char>>;

/// Calls `url::Url::parse` and reads the scheme, host, port, path, user name and
/// password of the result; each part is the named one of the text. A refusal is
/// given back as the error's text, the named refusal of the text.
#[verifier::external_body]
fn parse_url(text: &str) -> (r: Result<UrlParts, String>)
    ensures
        match r {
            Ok(p) => {
                &&& url_parse_error(text@) is None
                &&& p.scheme@ == url_scheme(text@)
                &&& opt_view(p.host) == url_host(text@)
                &&& p.port == url_port(text@)
                &&& p.path@ == url_path(text@)
                &&& p.username@ == url_username(text@)
                &&& opt_view(p.password) == url_password(text@)
            },
            Err(m) => url_parse_error(text@) == Some(m@),
        },
{
    match url::Url::parse(text) {
        Ok(u) => Ok(UrlParts {
            scheme: u.scheme().to_string(),
            host: u.host_str().map(str::to_string),
            port: u.port(),
            path: u.path().to_string(),
            username: u.username().to_string(),
            password: u.password().map(str::to_string),
        }),
        Err(e) => Err(e.to_string()),
    }
}

// ---------------------------------------------------------------------------------
// JSON tokens

/// Why `serde_json::from_str` refuses a text as JSON, as its error prints; `None`
/// when it is JSON.
pub uninterp spec fn json_parse_error(text: Seq<char>) -> Option<Seq<char>>;

/// The string under `key` of the JSON value in `text` (`value[key].as_str()`):
/// `None` when the value is no object, has no such key, or holds no string there.
pub uninterp spec fn json_string_at(text: Seq<char>, key: Seq<char>) -> Option<Seq<char>>;

/// Calls `serde_json::from_str` on `text`, then reads `value[key].as_str()`; the
/// result is the named string, or the named refusal of the text.
#[verifier::external_body]
fn json_string_field(text: &str, key: &str) -> (r: Result<Option<String>, String>)
    ensures
        match r {
            Ok(f) => json_parse_error(text@) is None && opt_view(f) == json_string_at(text@, key@),
            Err(m) => json_parse_error(text@) == Some(m@),
        },
{
    match serde_json::from_str::<serde_json::Value>(text) {
        Ok(v) => Ok(v[key].as_str().map(str::to_string)),
        Err(e) => Err(e.to_string()),
    }
}

/// The text `serde_json` prints for a JSON object whose members are the given string
/// pairs, key first (`Value::Object(..).to_string()`). A later pair with the same key
/// replaces an earlier one.
pub uninterp spec fn json_object_text(fields: Seq<(Seq<char>, Seq<char>)>) -> Seq<char>;

/// The views of string pairs.
pub open spec fn pair_views(fields: Seq<(String, String)>) -> Seq<(Seq<char>, Seq<char>)> {
    fields.map_values(|f: (String, String)| (f.0@, f.1@))
}

/// Puts each pair in a `serde_json::Map` as a key and a `Value::String`, in order, and
/// prints the object with `to_string`; the result is the named text of the pairs.
#[verifier::external_body]
fn json_object_string(fields: &Vec<(String, String)>) -> (r: String)
    ensures
        r@ == json_object_text(pair_views(fields@)),
{
    let mut m = serde_json::Map::new();
    for (k, v) in fields.iter() {
        m.insert(k.clone(), serde_json::Value::String(v.clone()));
    }
    serde_json::Value::Object(m).to_string()
}

/// The members of an SSH key token: its kind, the key file and the key's passphrase.
pub open spec fn ssh_key_token_fields(path: Seq<char>, passphrase: Seq<char>) -> Seq<(Seq<char>, Seq<char>)> {
    seq![("type"@, "ssh_key"@), ("path"@, path), ("passphrase"@, passphrase)]
}

/// An SSH key token carries no password: none of its members is named `password`.
pub proof fn lemma_key_token_has_no_password(path: Seq<char>, passphrase: Seq<char>)
    ensures
        forall|i: int|
            0 <= i < ssh_key_token_fields(path, passphrase).len() ==> #[trigger] ssh_key_token_fields(
                path,
                passphrase,
            )[i].0 != "password"@,
{
    reveal_strlit("type");
    reveal_strlit("path");
    reveal_strlit("passphrase");
    reveal_strlit("password");
    let f = ssh_key_token_fields(path, passphrase);
    assert(f[0].0.len() != "password"@.len());
    assert(f[1].0.len() != "password"@.len());
    assert(f[2].0[5] != "password"@[5]);
}

/// The text of the SSH key token for a key file and passphrase.
fn ssh_key_token(path: &str, passphrase: &str) -> (r: String)
    ensures
        r@ == json_object_text(ssh_key_token_fields(path@, passphrase@)),
{
    let mut fields: Vec<(String, String)> = Vec::new();
    fields.push((copy_str("type"), copy_str("ssh_key")));
    fields.push((copy_str("path"), copy_str(path)));
    fields.push((copy_str("passphrase"), copy_str(passphrase)));
    assert(pair_views(fields@) =~= ssh_key_token_fields(path@, passphrase@));
    json_object_string(&fields)
}

// ---------------------------------------------------------------------------------
// Text helpers

/// A line without the carriage return that ends it, if one does.
pub open spec fn without_cr(line: Seq<char>) -> Seq<char> {
    if line.len() > 0 && line.last() == '\r' {
        line.drop_last()
    } else {
        line
    }
}

/// Reading a text from the left: the lines ended so far (each without its line feed and
/// a carriage return before it), and the characters of the line not yet ended.
pub open spec fn line_scan(text: Seq<char>) -> (Seq<Seq<char>>, Seq<char>)
    decreases text.len(),
{
    if text.len() == 0 {
        (Seq::empty(), Seq::empty())
    } else {
        let (done, current) = line_scan(text.drop_last());
        if text.last() == '\n' {
            (done.push(without_cr(current)), Seq::empty())
        } else {
            (done, current.push(text.last()))
        }
    }
}

/// The lines of a text as `str::lines` gives them: split after each line feed, with
/// the line feed and a carriage return before it removed; a last line without a line
/// feed is kept as it is, and an empty text has no lines.
pub open spec fn text_lines(text: Seq<char>) -> Seq<Seq<char>> {
    let (done, current) = line_scan(text);
    if current.len() == 0 {
        done
    } else {
        done.push(current)
    }
}

/// Splits a text into its lines.
fn lines_of(text: &str) -> (r: Vec<String>)
    ensures
        views(r@) == text_lines(text@),
{
    let n = text.unicode_len();
    let mut r: Vec<String> = Vec::new();
    let mut start: usize = 0;
    let mut i: usize = 0;
    while i < n
        invariant
            n == text@.len(),
            start <= i <= n,
            line_scan(text@.take(i as int)) == (views(r@), text@.subrange(start as int, i as int)),
        decreases n - i,
    {
        let ghost before = views(r@);
        assert(text@.take(i + 1).drop_last() =~= text@.take(i as int));
        assert(text@.take(i + 1).last() == text@[i as int]);
        let c = text.get_char(i);
        if c == '\n' {
            let ghost cur = text@.subrange(start as int, i as int);
            let line = if i > start && text.get_char(i - 1) == '\r' {
                assert(cur.drop_last() =~= text@.subrange(start as int, i - 1));
                crate::text::substring(text, start, i - 1)
            } else {
                crate::text::substring(text, start, i)
            };
            r.push(line);
            assert(views(r@) =~= before.push(without_cr(cur)));
            start = i + 1;
            assert(text@.subrange(start as int, i + 1) =~= Seq::<char>::empty());
        } else {
            assert(text@.subrange(start as int, i + 1) =~= text@.subrange(start as int, i as int).push(c));
        }
        i = i + 1;
    }
    assert(text@.take(n as int) =~= text@);
    if start < n {
        let ghost before = views(r@);
        let last = crate::text::substring(text, start, n);
        r.push(last);
        assert(views(r@) =~= before.push(text@.subrange(start as int, n as int)));
    }
    r
}

/// What `String::from_utf8_lossy` reads from bytes.
pub uninterp spec fn utf8_lossy(bytes: Seq<u8>) -> Seq<char>;

/// Calls `String::from_utf8_lossy`; the result is the named reading of `bytes`.
#[verifier::external_body]
fn lossy_text(bytes: &[u8]) -> (r: String)
    ensures
        r@ == utf8_lossy(bytes@),
{
    String::from_utf8_lossy(bytes).into_owned()
}

/// What `Path::parent` gives for a path, as text.
pub uninterp spec fn parent_path(path: Seq<char>) -> Option<Seq<char>>;

/// Calls `std::path::Path::parent` on `path`; the result is the named parent.
#[verifier::external_body]
fn path_parent(path: &str) -> (r: Option<String>)
    ensures
        opt_view(r) == parent_path(path@),
{
    std::path::Path::new(path).parent().map(|p| p.to_string_lossy().into_owned())
}

/// Decimal digits of a number, most significant first.
pub open spec fn decimal(n: nat) -> Seq<char>
    decreases n,
{
    if n < 10 {
        seq!["0123456789"@[n as int]]
    } else {
        decimal(n / 10).push("0123456789"@[(n % 10) as int])
    }
}

/// Writes a number in decimal, as `to_string` does.
pub fn decimal_text(n: u64) -> (r: String)
    ensures
        r@ == decimal(n as nat),
    decreases n,
{
    let digits = "0123456789";
    proof {
        reveal_strlit("0123456789");
    }
    if n < 10 {
        let d = n as usize;
        let mut r = String::new();
        r.append(digits.substring_char(d, d + 1));
        assert(r@ =~= seq![digits@[d as int]]);
        r
    } else {
        let mut r = decimal_text(n / 10);
        let d = (n % 10) as usize;
        let ghost before = r@;
        r.append(digits.substring_char(d, d + 1));
        assert(r@ =~= before.push(digits@[d as int]));
        r
    }
}

/// The lines of a text that are not empty, in order.
pub open spec fn nonempty(lines: Seq<Seq<char>>) -> Seq<Seq<char>>
    decreases lines.len(),
{
    if lines.len() == 0 {
        Seq::empty()
    } else if lines.last().len() == 0 {
        nonempty(lines.drop_last())
    } else {
        nonempty(lines.drop_last()).push(lines.last())
    }
}

/// The non-empty lines of a process's output, read as lossy UTF-8.
pub fn output_lines(stdout: &[u8]) -> (r: Vec<String>)
    ensures
        views(r@) == nonempty(text_lines(utf8_lossy(stdout@))),
{
    let text = lossy_text(stdout);
    let lines = lines_of(text.as_str());
    let mut r: Vec<String> = Vec::new();
    let mut i: usize = 0;
    while i < lines.len()
        invariant
            i <= lines@.len(),
            views(lines@) == text_lines(utf8_lossy(stdout@)),
            views(r@) == nonempty(views(lines@).take(i as int)),
        decreases lines.len() - i,
    {
        let ghost before = views(r@);
        assert(views(lines@).take(i + 1).drop_last() =~= views(lines@).take(i as int));
        if lines[i].as_str().unicode_len() > 0 {
            r.push(copy_str(lines[i].as_str()));
            assert(views(r@) =~= before.push(lines@[i as int]@));
        }
        i = i + 1;
    }
    assert(views(lines@).take(lines@.len() as int) =~= views(lines@));
    r
}

/// All lines of a response body, read as lossy UTF-8.
pub fn body_lines(body: &[u8]) -> (r: Vec<String>)
    ensures
        views(r@) == text_lines(utf8_lossy(body@)),
{
    let text = lossy_text(body);
    lines_of(text.as_str())
}

// ---------------------------------------------------------------------------------
// HTTPS

/// The HTTPS transport.
#[derive(Debug, Clone)]
pub struct HttpsHandler;

impl HttpsHandler {
    pub fn new() -> (h: Self) {
        HttpsHandler
    }

    /// HTTPS takes a bearer token; any other credential is refused.
    pub fn authenticate(&self, credentials: &Credential) -> (r: Result<AuthToken, NetError>)
        ensures
            match credentials {
                Credential::Token { value } => r matches Ok(t) && t.token@ == "Bearer "@ + value@
                    && t.expires_at is None && t.refresh_token is None,
                _ => r matches Err(NetError::Protocol { message })
                    && message@ == "HTTPS requires token authentication"@,
            },
    {
        match credentials {
            Credential::Token { value } => {
                let mut t = copy_str("Bearer ");
                t.append(value.as_str());
                Ok(AuthToken { token: t, expires_at: None, refresh_token: None })
            },
            _ => Err(NetError::Protocol { message: copy_str("HTTPS requires token authentication") }),
        }
    }

    /// Where the listing of `path` under `base_url` is asked for.
    pub fn list_url(base_url: &str, path: &str) -> (r: String)
        ensures
            r@ == base_url@ + "/list/"@ + path@,
    {
        let mut r = copy_str(base_url);
        r.append("/list/");
        r.append(path);
        r
    }

    /// Where the object at `object_path` under `base_url` is read and written.
    pub fn object_url(base_url: &str, object_path: &str) -> (r: String)
        ensures
            r@ == base_url@ + "/"@ + object_path@,
    {
        let mut r = copy_str(base_url);
        r.append("/");
        r.append(object_path);
        r
    }
}

// ---------------------------------------------------------------------------------
// SSH

/// The SSH transport.
#[derive(Debug, Clone)]
pub struct SshHandler;

/// What an SSH request does on the remote side.
#[derive(Debug, Clone, Copy, PartialEq, Eq, Structural)]
pub enum SshAction {
    /// Print a file (`cat`).
    Read,
    /// Copy a local file there (`scp`).
    Write,
    /// Delete a file (`rm -f`).
    Remove,
    /// List a directory (`ls -1`).
    List,
}

/// Where an SSH request goes and what it does there.
#[derive(Debug, Clone)]
pub struct SshRequest {
    pub action: SshAction,
    pub host: String,
    pub port: u16,
    pub username: String,
    pub remote_path: String,
    /// A password to hand to `sshpass`, or `None` for key authentication.
    pub password: Option<String>,
}

/// A request, as plain values.
pub struct SshRequestView {
    pub action: SshAction,
    pub host: Seq<char>,
    pub port: u16,
    pub username: Seq<char>,
    pub remote_path: Seq<char>,
    pub password: Option<Seq<char>>,
}

impl View for SshRequest {
    type V = SshRequestView;

    open spec fn view(&self) -> SshRequestView {
        SshRequestView {
            action: self.action,
            host: self.host@,
            port: self.port,
            username: self.username@,
            remote_path: self.remote_path@,
            password: opt_view(self.password),
        }
    }
}

/// A program and its arguments.
#[derive(Debug, Clone)]
pub struct SshCommand {
    pub program: String,
    pub args: Vec<String>,
}

/// The SSH URL a transport path is read as.
pub open spec fn ssh_url(path: Seq<char>) -> Seq<char> {
    "ssh://"@ + path
}

/// What an operation name asks for: `get`, `post`/`put` (which need data), `delete`.
pub open spec fn operation_action(op: Seq<char>) -> Option<SshAction> {
    if op == "get"@ {
        Some(SshAction::Read)
    } else if op == "post"@ || op == "put"@ {
        Some(SshAction::Write)
    } else if op == "delete"@ {
        Some(SshAction::Remove)
    } else {
        None
    }
}

/// The password a token carries: its `password` field (or nothing) when its `type`
/// is `password`; `None` (key authentication) otherwise.
pub open spec fn token_password(token: Seq<char>) -> Option<Seq<char>> {
    if json_string_at(token, "type"@) == Some("password"@) {
        match json_string_at(token, "password"@) {
            Some(p) => Some(p),
            None => Some(Seq::empty()),
        }
    } else {
        None
    }
}

/// The outcome of planning an SSH operation on `path`: the request, or the message
/// it is refused with. The URL is checked first, then the token, then the operation.
pub open spec fn ssh_plan(path: Seq<char>, has_data: bool, op: Seq<char>, token: Seq<char>) -> Result<SshRequestView, Seq<char>> {
    let u = ssh_url(path);
    if url_parse_error(u) is Some {
        Err("Invalid SSH URL: "@ + url_parse_error(u)->0)
    } else if url_host(u) is None {
        Err("No host in SSH URL"@)
    } else if url_username(u).len() == 0 {
        Err("No username in SSH URL"@)
    } else if json_parse_error(token) is Some {
        Err("Invalid auth token: "@ + json_parse_error(token)->0)
    } else {
        match operation_action(op) {
            None => Err("Unknown SSH operation: "@ + op),
            Some(a) => if a == SshAction::Write && !has_data {
                Err("No data provided for SSH post/put operation"@)
            } else {
                Ok(SshRequestView {
                    action: a,
                    host: url_host(u)->0,
                    port: match url_port(u) {
                        Some(p) => p,
                        None => 22,
                    },
                    username: url_username(u),
                    remote_path: url_path(u),
                    password: token_password(token),
                })
            },
        }
    }
}

/// The outcome of aiming an object operation at `object_path` under `base_url`: the
/// target, or the message it is refused with.
pub open spec fn ssh_target(base_url: Seq<char>, object_path: Seq<char>, action: SshAction) -> Result<SshRequestView, Seq<char>> {
    if url_parse_error(base_url) is Some {
        Err("Invalid SSH URL: "@ + url_parse_error(base_url)->0)
    } else if url_host(base_url) is None {
        Err("No host in SSH URL"@)
    } else {
        Ok(SshRequestView {
            action,
            host: url_host(base_url)->0,
            port: match url_port(base_url) {
                Some(p) => p,
                None => 22,
            },
            username: url_username(base_url),
            remote_path: url_path(base_url) + "/"@ + object_path,
            password: url_password(base_url),
        })
    }
}

/// `-o` options that every invocation carries.
pub open spec fn host_key_options() -> Seq<Seq<char>> {
    seq!["-o"@, "StrictHostKeyChecking=no"@, "-o"@, "UserKnownHostsFile=/dev/null"@]
}

/// The program and arguments that run `remote` on the host of `q`: `ssh` itself, or
/// `sshpass -p <password> ssh` when the request carries a password.
pub open spec fn ssh_invocation(q: SshRequestView, remote: Seq<char>) -> (Seq<char>, Seq<Seq<char>>) {
    let rest = seq!["-p"@, decimal(q.port as nat)] + host_key_options() + seq![q.username + "@"@ + q.host, remote];
    match q.password {
        Some(p) => ("sshpass"@, seq!["-p"@, p, "ssh"@] + rest),
        None => ("ssh"@, rest),
    }
}

/// The program and arguments that copy `local` to the remote path of `q`.
pub open spec fn scp_invocation(q: SshRequestView, local: Seq<char>) -> (Seq<char>, Seq<Seq<char>>) {
    let rest = seq!["-P"@, decimal(q.port as nat)] + host_key_options()
        + seq![local, q.username + "@"@ + q.host + ":"@ + q.remote_path];
    match q.password {
        Some(p) => ("sshpass"@, seq!["-p"@, p, "scp"@] + rest),
        None => ("scp"@, rest),
    }
}

/// The shell command run on the remote side for an action.
pub open spec fn remote_command(q: SshRequestView) -> Seq<char> {
    match q.action {
        SshAction::Read => "cat "@ + q.remote_path,
        SshAction::Remove => "rm -f "@ + q.remote_path,
        SshAction::List => "ls -1 "@ + q.remote_path,
        SshAction::Write => Seq::empty(),
    }
}

/// The invocation that carries out a request; `local` is the file a write copies.
pub open spec fn invocation(q: SshRequestView, local: Seq<char>) -> (Seq<char>, Seq<Seq<char>>) {
    if q.action == SshAction::Write {
        scp_invocation(q, local)
    } else {
        ssh_invocation(q, remote_command(q))
    }
}

/// Appends the host-key options.
fn push_host_key_options(args: &mut Vec<String>)
    ensures
        views(final(args)@) == views(old(args)@) + host_key_options(),
{
    let ghost before = views(args@);
    args.push(copy_str("-o"));
    args.push(copy_str("StrictHostKeyChecking=no"));
    args.push(copy_str("-o"));
    args.push(copy_str("UserKnownHostsFile=/dev/null"));
    assert(views(args@) =~= before + host_key_options());
}

impl SshHandler {
    pub fn new() -> (h: Self) {
        SshHandler
    }

    /// SSH takes a key: the token is a JSON object naming the key file and its
    /// passphrase (empty when there is none). Any other credential is refused.
    pub fn authenticate(&self, credentials: &Credential) -> (r: Result<AuthToken, NetError>)
        ensures
            match credentials {
                Credential::SshKey { path, passphrase } => r matches Ok(t)
                    && t.token@ == json_object_text(ssh_key_token_fields(
                        path@,
                        match passphrase {
                            Some(p) => p@,
                            None => Seq::empty(),
                        },
                    )) && t.expires_at is None && t.refresh_token is None,
                _ => r matches Err(NetError::Protocol { message })
                    && message@ == "SSH requires SSH key or password authentication"@,
            },
    {
        match credentials {
            Credential::SshKey { path, passphrase } => {
                proof {
                    reveal_strlit("");
                }
                let token = match passphrase {
                    Some(p) => ssh_key_token(path.as_str(), p.as_str()),
                    None => {
                        let t = ssh_key_token(path.as_str(), "");
                        assert(""@ =~= Seq::<char>::empty());
                        t
                    },
                };
                Ok(AuthToken { token, expires_at: None, refresh_token: None })
            },
            _ => Err(
                NetError::Protocol { message: copy_str("SSH requires SSH key or password authentication") },
            ),
        }
    }

    /// Plans an SSH operation (`get`, `post`, `put` or `delete`) on a transport path
    /// (`user@host[:port]/path`) with a token from [`Self::authenticate`]; `has_data`
    /// tells whether data comes with it.
    pub fn plan_operation(&self, path: &str, has_data: bool, operation: &str, auth: &AuthToken) -> (r: Result<SshRequest, NetError>)
        ensures
            match ssh_plan(path@, has_data, operation@, auth.token@) {
                Ok(q) => r matches Ok(req) && req@ == q,
                Err(m) => r matches Err(NetError::Protocol { message }) && message@ == m,
            },
    {
        let mut u = copy_str("ssh://");
        u.append(path);
        let parts = match parse_url(u.as_str()) {
            Ok(p) => p,
            Err(e) => {
                let mut m = copy_str("Invalid SSH URL: ");
                m.append(e.as_str());
                return Err(NetError::Protocol { message: m });
            },
        };
        let host = match parts.host {
            Some(h) => h,
            None => {
                return Err(NetError::Protocol { message: copy_str("No host in SSH URL") });
            },
        };
        if parts.username.as_str().unicode_len() == 0 {
            return Err(NetError::Protocol { message: copy_str("No username in SSH URL") });
        }
        let auth_type = match json_string_field(auth.token.as_str(), "type") {
            Ok(t) => t,
            Err(e) => {
                let mut m = copy_str("Invalid auth token: ");
                m.append(e.as_str());
                return Err(NetError::Protocol { message: m });
            },
        };
        let action = if str_eq(operation, "get") {
            SshAction::Read
        } else if str_eq(operation, "post") || str_eq(operation, "put") {
            if !has_data {
                return Err(
                    NetError::Protocol { message: copy_str("No data provided for SSH post/put operation") },
                );
            }
            SshAction::Write
        } else if str_eq(operation, "delete") {
            SshAction::Remove
        } else {
            let mut m = copy_str("Unknown SSH operation: ");
            m.append(operation);
            return Err(NetError::Protocol { message: m });
        };
        let is_password = match &auth_type {
            Some(t) => str_eq(t.as_str(), "password"),
            None => false,
        };
        let password = if is_password {
            match json_string_field(auth.token.as_str(), "password") {
                Ok(Some(p)) => Some(p),
                _ => Some(String::new()),
            }
        } else {
            None
        };
        let port = match parts.port {
            Some(p) => p,
            None => 22,
        };
        Ok(SshRequest { action, host, port, username: parts.username, remote_path: parts.path, password })
    }

    /// Aims an object operation at `object_path` under an SSH `base_url`; the remote
    /// path is the URL's path, a slash and `object_path`, and a password in the URL is
    /// handed to `sshpass`.
    pub fn target(&self, base_url: &str, object_path: &str, action: SshAction) -> (r: Result<SshRequest, NetError>)
        ensures
            match ssh_target(base_url@, object_path@, action) {
                Ok(q) => r matches Ok(req) && req@ == q,
                Err(m) => r matches Err(NetError::Protocol { message }) && message@ == m,
            },
    {
        let parts = match parse_url(base_url) {
            Ok(p) => p,
            Err(e) => {
                let mut m = copy_str("Invalid SSH URL: ");
                m.append(e.as_str());
                return Err(NetError::Protocol { message: m });
            },
        };
        let host = match parts.host {
            Some(h) => h,
            None => {
                return Err(NetError::Protocol { message: copy_str("No host in SSH URL") });
            },
        };
        let port = match parts.port {
            Some(p) => p,
            None => 22,
        };
        let mut remote_path = parts.path;
        remote_path.append("/");
        remote_path.append(object_path);
        Ok(SshRequest { action, host, port, username: parts.username, remote_path, password: parts.password })
    }

    /// The invocation that carries out a request; `local_file` is the file that a
    /// write copies to the remote path.
    pub fn command(&self, req: &SshRequest, local_file: &str) -> (c: SshCommand)
        ensures
            (c.program@, views(c.args@)) == invocation(req@, local_file@),
    {
        let is_write = match req.action {
            SshAction::Write => true,
            _ => false,
        };
        if is_write {
            let mut dest = copy_str(req.username.as_str());
            dest.append("@");
            dest.append(req.host.as_str());
            dest.append(":");
            dest.append(req.remote_path.as_str());
            Self::invoke(req, "scp", "-P", copy_str(local_file), dest)
        } else {
            let mut remote = match req.action {
                SshAction::Read => copy_str("cat "),
                SshAction::Remove => copy_str("rm -f "),
                _ => copy_str("ls -1 "),
            };
            remote.append(req.remote_path.as_str());
            let mut dest = copy_str(req.username.as_str());
            dest.append("@");
            dest.append(req.host.as_str());
            Self::invoke(req, "ssh", "-p", dest, remote)
        }
    }

    /// The invocation that creates the parent directory of the request's remote path
    /// (`mkdir -p`), or `None` when the path has no parent.
    pub fn mkdir_command(&self, req: &SshRequest) -> (c: Option<SshCommand>)
        ensures
            match parent_path(req.remote_path@) {
                Some(d) => c matches Some(cmd) && (cmd.program@, views(cmd.args@)) == ssh_invocation(req@, "mkdir -p "@ + d),
                None => c is None,
            },
    {
        match path_parent(req.remote_path.as_str()) {
            Some(d) => {
                let mut remote = copy_str("mkdir -p ");
                remote.append(d.as_str());
                let mut dest = copy_str(req.username.as_str());
                dest.append("@");
                dest.append(req.host.as_str());
                Some(Self::invoke(req, "ssh", "-p", dest, remote))
            },
            None => None,
        }
    }

    /// `program` (or `sshpass -p <password> program`) with the port flag, the host-key
    /// options and the two final arguments.
    fn invoke(req: &SshRequest, program: &str, port_flag: &str, a: String, b: String) -> (c: SshCommand)
        ensures
            ({
                let rest = seq![port_flag@, decimal(req.port as nat)] + host_key_options() + seq![a@, b@];
                (c.program@, views(c.args@)) == match req.password {
                    Some(p) => ("sshpass"@, seq!["-p"@, p@, program@] + rest),
                    None => (program@, rest),
                }
            }),
    {
        let mut args: Vec<String> = Vec::new();
        let prog = match &req.password {
            Some(p) => {
                args.push(copy_str("-p"));
                args.push(copy_str(p.as_str()));
                args.push(copy_str(program));
                copy_str("sshpass")
            },
            None => copy_str(program),
        };
        let ghost head = views(args@);
        args.push(copy_str(port_flag));
        let port_text = decimal_text(req.port as u64);
        let ghost pt = port_text@;
        args.push(port_text);
        assert(views(args@) =~= head + seq![port_flag@, pt]);
        push_host_key_options(&mut args);
        let ghost mid = views(args@);
        assert(mid =~= head + seq![port_flag@, pt] + host_key_options());
        let ghost av = a@;
        let ghost bv = b@;
        args.push(a);
        args.push(b);
        assert(views(args@) =~= mid + seq![av, bv]);
        proof {
            let rest = seq![port_flag@, decimal(req.port as nat)] + host_key_options() + seq![a@, b@];
            assert(views(args@) =~= head + rest);
            if req.password is Some {
                assert(head =~= seq!["-p"@, req.password->0@, program@]);
            } else {
                assert(head =~= Seq::<Seq<char>>::empty());
            }
        }
        SshCommand { program: prog, args }
    }
}

// ---------------------------------------------------------------------------------
// Connecting

/// The default remote synchronisation: connects by URL and protocol.
#[derive(Debug, Clone)]
pub struct DefaultRemoteSync;

/// The protocol a URL scheme selects: `ssh`, or `https`/`http`.
pub open spec fn scheme_protocol(scheme: Seq<char>) -> Option<Protocol> {
    if scheme == "ssh"@ {
        Some(Protocol::SSH)
    } else if scheme == "https"@ || scheme == "http"@ {
        Some(Protocol::HTTPS)
    } else {
        None
    }
}

/// How a connection ends: connected with a protocol name, or refused with a
/// synchronisation or a protocol error.
pub enum ConnectOutcome {
    Connected(Seq<char>),
    SyncRefused(Seq<char>),
    ProtocolRefused(Seq<char>),
}

/// The outcome of connecting to a remote at `url`. A password in the URL is a token;
/// without one, SSH uses the user's default key and HTTPS is refused. SSH then refuses
/// a token, so an SSH URL with a password is refused.
pub open spec fn connect_outcome(url: Seq<char>) -> ConnectOutcome {
    if url_parse_error(url) is Some {
        ConnectOutcome::SyncRefused("Invalid remote URL '"@ + url + "': "@ + url_parse_error(url)->0)
    } else {
        match scheme_protocol(url_scheme(url)) {
            None => ConnectOutcome::SyncRefused("Unsupported protocol: "@ + url_scheme(url)),
            Some(Protocol::SSH) => if url_password(url) is Some {
                ConnectOutcome::ProtocolRefused("SSH requires SSH key or password authentication"@)
            } else {
                ConnectOutcome::Connected("ssh"@)
            },
            Some(Protocol::HTTPS) => if url_password(url) is Some {
                ConnectOutcome::Connected("https"@)
            } else {
                ConnectOutcome::SyncRefused("No credentials provided for HTTPS connection"@)
            },
        }
    }
}

/// A connection to a URL that parses succeeds exactly in two cases: the scheme is `ssh`
/// and the URL holds no password (connected over `ssh`), or the scheme is `https` or
/// `http` and the URL holds a password (connected over `https`). In particular `http`
/// is connected over HTTPS just as `https` is.
pub proof fn lemma_connect_succeeds(url: Seq<char>, p: Seq<char>)
    requires
        url_parse_error(url) is None,
    ensures
        connect_outcome(url) == ConnectOutcome::Connected(p) <==> {
            ||| url_scheme(url) == "ssh"@ && url_password(url) is None && p == "ssh"@
            ||| (url_scheme(url) == "https"@ || url_scheme(url) == "http"@) && url_password(url) is Some
                && p == "https"@
        },
{
    reveal_strlit("ssh");
    reveal_strlit("https");
    reveal_strlit("http");
    assert("ssh"@ != "https"@) by {
        assert("ssh"@.len() != "https"@.len());
    }
    assert("ssh"@ != "http"@) by {
        assert("ssh"@.len() != "http"@.len());
    }
}

/// Two URLs that parse, one with the scheme `http` and one with `https`, and that agree
/// on whether they hold a password, connect alike.
pub proof fn lemma_http_connects_as_https(a: Seq<char>, b: Seq<char>)
    requires
        url_parse_error(a) is None,
        url_parse_error(b) is None,
        url_scheme(a) == "http"@,
        url_scheme(b) == "https"@,
        url_password(a) is Some <==> url_password(b) is Some,
    ensures
        connect_outcome(a) == connect_outcome(b),
{
    reveal_strlit("ssh");
    reveal_strlit("https");
    reveal_strlit("http");
    assert("ssh"@ != "https"@) by {
        assert("ssh"@.len() != "https"@.len());
    }
    assert("ssh"@ != "http"@) by {
        assert("ssh"@.len() != "http"@.len());
    }
}

impl DefaultRemoteSync {
    pub fn new() -> (s: Self) {
        DefaultRemoteSync
    }

    /// The credential a connection to `url` presents: a password in the URL as a
    /// token; otherwise, for SSH, the key `<home>/.ssh/id_rsa`.
    fn credentials_for(parts: &UrlParts, protocol: Protocol, home: &str) -> (r: Option<Credential>)
        ensures
            match parts.password {
                Some(p) => r matches Some(Credential::Token { value }) && value@ == p@,
                None => if protocol == Protocol::SSH {
                    r matches Some(Credential::SshKey { path, passphrase })
                        && path@ == home@ + "/.ssh/id_rsa"@ && passphrase is None
                } else {
                    r is None
                },
            },
    {
        match &parts.password {
            Some(p) => Some(Credential::Token { value: copy_str(p.as_str()) }),
            None => {
                if protocol == Protocol::SSH {
                    let mut path = copy_str(home);
                    path.append("/.ssh/id_rsa");
                    Some(Credential::SshKey { path, passphrase: None })
                } else {
                    None
                }
            },
        }
    }

    /// Connects to `remote`: picks the protocol by the URL's scheme, presents the
    /// credential (see [`connect_outcome`]) and authenticates with it. `home` is the
    /// user's home directory.
    pub fn connect(&self, remote: &Remote, home: &str) -> (r: Result<SyncClient, NetError>)
        ensures
            match connect_outcome(remote.url@) {
                ConnectOutcome::Connected(p) => r matches Ok(c) && c.remote_url@ == remote.url@ && c.protocol@ == p,
                ConnectOutcome::SyncRefused(m) => r matches Err(NetError::Sync { message }) && message@ == m,
                ConnectOutcome::ProtocolRefused(m) => r matches Err(NetError::Protocol { message }) && message@ == m,
            },
    {
        let parts = match parse_url(remote.url.as_str()) {
            Ok(p) => p,
            Err(e) => {
                let mut m = copy_str("Invalid remote URL '");
                m.append(remote.url.as_str());
                m.append("': ");
                m.append(e.as_str());
                return Err(NetError::Sync { message: m });
            },
        };
        let protocol = if str_eq(parts.scheme.as_str(), "ssh") {
            Protocol::SSH
        } else if str_eq(parts.scheme.as_str(), "https") || str_eq(parts.scheme.as_str(), "http") {
            Protocol::HTTPS
        } else {
            let mut m = copy_str("Unsupported protocol: ");
            m.append(parts.scheme.as_str());
            return Err(NetError::Sync { message: m });
        };
        let credentials = match Self::credentials_for(&parts, protocol, home) {
            Some(c) => c,
            None => {
                return Err(NetError::Sync { message: copy_str("No credentials provided for HTTPS connection") });
            },
        };
        let _auth = match protocol {
            Protocol::SSH => SshHandler::new().authenticate(&credentials)?,
            Protocol::HTTPS => HttpsHandler::new().authenticate(&credentials)?,
        };
        let name = match protocol {
            Protocol::SSH => copy_str("ssh"),
            Protocol::HTTPS => copy_str("https"),
        };
        Ok(SyncClient::new(copy_str(remote.url.as_str()), name))
    }

    /// The issue a remote is asked for is not there: downloads are refused with the
    /// issue's identifier.
    pub fn download_issue(&self, client: &SyncClient, id: IssueId) -> (r: Result<crate::issue::Issue, NetError>)
        ensures
            r matches Err(NetError::Sync { message }) && message@ == "Issue "@ + uuid_text(id) + " not found on remote"@,
    {
        let mut m = copy_str("Issue ");
        let t = issue_id_text(id);
        m.append(t.as_str());
        m.append(" not found on remote");
        Err(NetError::Sync { message: m })
    }

    /// The state of a remote: named by its URL, synchronised now, with nothing counted.
    pub fn get_sync_state(&self, client: &SyncClient) -> (s: RemoteSyncState)
        ensures
            s.remote_name@ == client.remote_url@,
            s.last_sync is Some,
            s.total_issues == 0,
            s.pending_changes == 0,
    {
        RemoteSyncState {
            remote_name: copy_str(client.remote_url.as_str()),
            last_sync: Some(now()),
            total_issues: 0,
            pending_changes: 0,
        }
    }
}

} // verus!
