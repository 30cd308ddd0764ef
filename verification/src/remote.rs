//! The remote adapter: what is sent to the backend and how its answers are
//! read. Nothing here touches the network; requests and replies are values.

use vstd::prelude::*;
use vstd::string::*;
use crate::json::{
    close_object, closed, json_quoted, json_quoted_opt, push_opt_member, push_text_member,
    with_member,
};
use crate::records::{
    folder_views, item_views, Folder, FolderView, UserSession, UserSessionView, VaultItem,
    VaultItemView,
};
use crate::text::{clone_opt, opt_text};

verus! {

/// Where the backend lives and the key that every request carries.
#[derive(Debug)]
pub struct SupabaseConfig {
    pub url: String,
    pub anon_key: String,
}

pub struct ConfigView {
    pub url: Seq<char>,
    pub anon_key: Seq<char>,
}

impl View for SupabaseConfig {
    type V = ConfigView;

    open spec fn view(&self) -> ConfigView {
        ConfigView { url: self.url@, anon_key: self.anon_key@ }
    }
}

impl Clone for SupabaseConfig {
    fn clone(&self) -> (r: Self)
        ensures
            r@ == self@,
    {
        SupabaseConfig { url: self.url.clone(), anon_key: self.anon_key.clone() }
    }
}

/// A vault record as the backend sends it.
#[derive(Debug)]
pub struct SupabaseVaultItem {
    pub id: String,
    pub user_id: String,
    pub encrypted_data: String,
    pub item_type: String,
    pub folder_id: Option<String>,
    pub deleted_at: Option<String>,
    pub created_at: String,
    pub updated_at: String,
}

/// A folder as the backend sends it.
#[derive(Debug)]
pub struct SupabaseFolder {
    pub id: String,
    pub user_id: String,
    pub name: String,
    pub created_at: String,
    pub updated_at: String,
}

/// Who the tokens of an authentication answer belong to.
#[derive(Debug)]
pub struct SupabaseUser {
    pub id: String,
    pub email: String,
}

/// What the backend answers to a successful authentication or renewal.
#[derive(Debug)]
pub struct SupabaseAuthResponse {
    pub access_token: String,
    pub refresh_token: String,
    /// Seconds since the Unix epoch.
    pub expires_at: i64,
    pub user: SupabaseUser,
}

/// What the backend sends along with a refusal.
#[derive(Debug)]
pub struct SupabaseError {
    pub message: String,
    pub error: Option<String>,
}

#[derive(Debug, Clone, Copy, PartialEq, Eq, Structural)]
pub enum HttpMethod {
    Get,
    Post,
    Patch,
    Delete,
    Head,
}

/// What the body of an answer is expected to hold.
#[derive(Debug, Clone, Copy, PartialEq, Eq, Structural)]
pub enum Expectation {
    /// Nothing that is read.
    Nothing,
    /// Tokens and their owner.
    Auth,
    /// A list of folders.
    Folders,
    /// A list of vault records.
    VaultItems,
}

#[derive(Debug)]
pub struct HttpHeader {
    pub name: String,
    pub value: String,
}

/// A request to the backend, ready to be sent.
#[derive(Debug)]
pub struct HttpRequest {
    pub method: HttpMethod,
    pub url: String,
    pub headers: Vec<HttpHeader>,
    pub body: Option<String>,
    /// What the answer's body should be decoded as.
    pub expects: Expectation,
}

pub struct HttpRequestView {
    pub method: HttpMethod,
    pub url: Seq<char>,
    pub headers: Seq<(Seq<char>, Seq<char>)>,
    pub body: Option<Seq<char>>,
    pub expects: Expectation,
}

impl View for HttpRequest {
    type V = HttpRequestView;

    open spec fn view(&self) -> HttpRequestView {
        HttpRequestView {
            method: self.method,
            url: self.url@,
            headers: Seq::new(
                self.headers.len() as nat,
                |i: int| (self.headers[i].name@, self.headers[i].value@),
            ),
            body: opt_text(self.body),
            expects: self.expects,
        }
    }
}

/// The body of an answer, decoded by whoever received it.
#[derive(Debug)]
pub enum ResponseBody {
    /// The body was not decoded.
    Raw,
    Auth(SupabaseAuthResponse),
    Folders(Vec<SupabaseFolder>),
    VaultItems(Vec<SupabaseVaultItem>),
    Error(SupabaseError),
    /// The body could not be decoded; the decoder's complaint.
    Malformed(String),
}

/// An answer of the backend.
#[derive(Debug)]
pub struct HttpResponse {
    pub status: u16,
    /// The status as a line of text, such as `404 Not Found`.
    pub status_line: String,
    /// The body as it came.
    pub text: String,
    /// The body decoded as the request expected.
    pub body: ResponseBody,
}

/// How a request ended.
#[derive(Debug)]
pub enum HttpReply {
    /// The backend answered.
    Answered(HttpResponse),
    /// No answer came; the transport's complaint.
    Unreachable(String),
}

/// A status in the 2xx range.
pub open spec fn is_success(status: u16) -> bool {
    200 <= status < 300
}

/// Decides `is_success`.
pub fn status_is_success(status: u16) -> (r: bool)
    ensures
        r == is_success(status),
{
    200 <= status && status < 300
}

/// Whether an answer shows that the backend can be reached: any success
/// does, and so does a demand for credentials.
pub open spec fn shows_online(reply: HttpReply) -> bool {
    match reply {
        HttpReply::Answered(response) => is_success(response.status) || response.status == 401,
        HttpReply::Unreachable(_) => false,
    }
}

/// The key header and the content type: what an unauthenticated call carries.
pub open spec fn anonymous_headers(config: ConfigView) -> Seq<(Seq<char>, Seq<char>)> {
    seq![("apikey"@, config.anon_key), ("Content-Type"@, "application/json"@)]
}

/// The key header and the bearer token: what a reading call carries.
pub open spec fn bearer_headers(config: ConfigView, token: Seq<char>) -> Seq<
    (Seq<char>, Seq<char>),
> {
    seq![("apikey"@, config.anon_key), ("Authorization"@, "Bearer "@ + token)]
}

/// What a storing call carries: key, token, content type, and the wish that
/// a row with the same key be merged, not refused.
pub open spec fn upsert_headers(config: ConfigView, token: Seq<char>) -> Seq<
    (Seq<char>, Seq<char>),
> {
    seq![
        ("apikey"@, config.anon_key),
        ("Authorization"@, "Bearer "@ + token),
        ("Content-Type"@, "application/json"@),
        ("Prefer"@, "resolution=merge-duplicates"@),
    ]
}

pub(crate) fn header(name: &str, value: String) -> (h: HttpHeader)
    ensures
        h.name@ == name@,
        h.value@ == value@,
{
    HttpHeader { name: name.to_owned(), value }
}

fn make_anonymous_headers(config: &SupabaseConfig) -> (r: Vec<HttpHeader>)
    ensures
        Seq::new(r.len() as nat, |i: int| (r[i].name@, r[i].value@)) == anonymous_headers(config@),
{
    let mut r: Vec<HttpHeader> = Vec::new();
    r.push(header("apikey", config.anon_key.clone()));
    r.push(header("Content-Type", String::from_str("application/json")));
    proof {
        assert(Seq::new(r.len() as nat, |i: int| (r[i].name@, r[i].value@)) =~= anonymous_headers(
            config@,
        ));
    }
    r
}

fn make_bearer_headers(config: &SupabaseConfig, token: &str) -> (r: Vec<HttpHeader>)
    ensures
        Seq::new(r.len() as nat, |i: int| (r[i].name@, r[i].value@)) == bearer_headers(
            config@,
            token@,
        ),
{
    let mut r: Vec<HttpHeader> = Vec::new();
    r.push(header("apikey", config.anon_key.clone()));
    r.push(header("Authorization", String::from_str("Bearer ").concat(token)));
    proof {
        assert(Seq::new(r.len() as nat, |i: int| (r[i].name@, r[i].value@)) =~= bearer_headers(
            config@,
            token@,
        ));
    }
    r
}

fn make_upsert_headers(config: &SupabaseConfig, token: &str) -> (r: Vec<HttpHeader>)
    ensures
        Seq::new(r.len() as nat, |i: int| (r[i].name@, r[i].value@)) == upsert_headers(
            config@,
            token@,
        ),
{
    let mut r: Vec<HttpHeader> = Vec::new();
    r.push(header("apikey", config.anon_key.clone()));
    r.push(header("Authorization", String::from_str("Bearer ").concat(token)));
    r.push(header("Content-Type", String::from_str("application/json")));
    r.push(header("Prefer", String::from_str("resolution=merge-duplicates")));
    proof {
        assert(Seq::new(r.len() as nat, |i: int| (r[i].name@, r[i].value@)) =~= upsert_headers(
            config@,
            token@,
        ));
    }
    r
}

/// The probe that tells whether the backend can be reached: a request for
/// the head of its root, with the key and without a token.
pub open spec fn connectivity_request(config: ConfigView) -> HttpRequestView {
    HttpRequestView {
        method: HttpMethod::Head,
        url: config.url + "/rest/v1/"@,
        headers: seq![("apikey"@, config.anon_key)],
        body: None,
        expects: Expectation::Nothing,
    }
}

/// The exchange of an email and a password hash for tokens; `None` where the
/// credentials have no JSON form.
pub open spec fn password_request(
    config: ConfigView,
    email: Seq<char>,
    password_hash: Seq<char>,
) -> Option<HttpRequestView> {
    let a = with_member(Some(""@), "{\"email\":"@, json_quoted(email));
    let b = with_member(a, ",\"password\":"@, json_quoted(password_hash));
    match closed(b) {
        Some(body) => Some(
            HttpRequestView {
                method: HttpMethod::Post,
                url: config.url + "/auth/v1/token?grant_type=password"@,
                headers: anonymous_headers(config),
                body: Some(body),
                expects: Expectation::Auth,
            },
        ),
        None => None,
    }
}

/// The exchange of a refresh token for new tokens; `None` where the token has
/// no JSON form.
pub open spec fn renewal_request(config: ConfigView, refresh_token: Seq<char>) -> Option<
    HttpRequestView,
> {
    let a = with_member(Some(""@), "{\"refresh_token\":"@, json_quoted(refresh_token));
    match closed(a) {
        Some(body) => Some(
            HttpRequestView {
                method: HttpMethod::Post,
                url: config.url + "/auth/v1/token?grant_type=refresh_token"@,
                headers: anonymous_headers(config),
                body: Some(body),
                expects: Expectation::Auth,
            },
        ),
        None => None,
    }
}

/// The record on its way to the backend, tagged with its owner; `None` where
/// a field has no JSON form.
pub open spec fn item_upsert_request(
    config: ConfigView,
    session: UserSessionView,
    item: VaultItemView,
) -> Option<HttpRequestView> {
    let a = with_member(Some(""@), "{\"id\":"@, json_quoted(item.id));
    let b = with_member(a, ",\"user_id\":"@, json_quoted(session.user_id));
    let c = with_member(b, ",\"encrypted_data\":"@, json_quoted(item.encrypted_data));
    let d = with_member(c, ",\"type\":"@, json_quoted(item.item_type));
    let e = with_member(d, ",\"folder_id\":"@, json_quoted_opt(item.folder_id));
    let f = with_member(e, ",\"deleted_at\":"@, json_quoted_opt(item.deleted_at));
    match closed(f) {
        Some(body) => Some(
            HttpRequestView {
                method: HttpMethod::Post,
                url: config.url + "/rest/v1/vault_items"@,
                headers: upsert_headers(config, session.access_token),
                body: Some(body),
                expects: Expectation::Nothing,
            },
        ),
        None => None,
    }
}

/// The folder on its way to the backend, tagged with its owner; `None` where
/// a field has no JSON form.
pub open spec fn folder_upsert_request(
    config: ConfigView,
    session: UserSessionView,
    folder: FolderView,
) -> Option<HttpRequestView> {
    let a = with_member(Some(""@), "{\"id\":"@, json_quoted(folder.id));
    let b = with_member(a, ",\"user_id\":"@, json_quoted(session.user_id));
    let c = with_member(b, ",\"name\":"@, json_quoted(folder.name));
    match closed(c) {
        Some(body) => Some(
            HttpRequestView {
                method: HttpMethod::Post,
                url: config.url + "/rest/v1/folders"@,
                headers: upsert_headers(config, session.access_token),
                body: Some(body),
                expects: Expectation::Nothing,
            },
        ),
        None => None,
    }
}

/// The removal of one row of `table` by its id.
pub open spec fn delete_request(
    config: ConfigView,
    session: UserSessionView,
    table: Seq<char>,
    id: Seq<char>,
) -> HttpRequestView {
    HttpRequestView {
        method: HttpMethod::Delete,
        url: config.url + "/rest/v1/"@ + table + "?id=eq."@ + id,
        headers: bearer_headers(config, session.access_token),
        body: None,
        expects: Expectation::Nothing,
    }
}

/// The address from which the rows of `table` that belong to `user_id` are
/// fetched: all of them, or those the server changed after `since`.
pub open spec fn pull_url(
    config: ConfigView,
    table: Seq<char>,
    user_id: Seq<char>,
    since: Option<Seq<char>>,
) -> Seq<char> {
    let all = config.url + "/rest/v1/"@ + table + "?user_id=eq."@ + user_id;
    match since {
        Some(t) => all + "&updated_at=gt."@ + t,
        None => all,
    }
}

/// The fetch of the user's rows of `table`.
pub open spec fn pull_request(
    config: ConfigView,
    session: UserSessionView,
    table: Seq<char>,
    since: Option<Seq<char>>,
    expects: Expectation,
) -> HttpRequestView {
    HttpRequestView {
        method: HttpMethod::Get,
        url: pull_url(config, table, session.user_id, since),
        headers: bearer_headers(config, session.access_token),
        body: None,
        expects,
    }
}

/// Builds `connectivity_request`.
pub fn build_connectivity_request(config: &SupabaseConfig) -> (r: HttpRequest)
    ensures
        r@ == connectivity_request(config@),
{
    let mut headers: Vec<HttpHeader> = Vec::new();
    headers.push(header("apikey", config.anon_key.clone()));
    let r = HttpRequest {
        method: HttpMethod::Head,
        url: config.url.clone().concat("/rest/v1/"),
        headers,
        body: None,
        expects: Expectation::Nothing,
    };
    proof {
        assert(r@.headers =~= seq![("apikey"@, config@.anon_key)]);
    }
    r
}

/// Builds `password_request`.
pub fn build_password_request(config: &SupabaseConfig, email: &str, password_hash: &str) -> (r:
    Option<HttpRequest>)
    ensures
        match r {
            Some(request) => password_request(config@, email@, password_hash@) == Some(request@),
            None => password_request(config@, email@, password_hash@) is None,
        },
{
    let a = push_text_member(Some(String::from_str("")), "{\"email\":", email);
    let b = push_text_member(a, ",\"password\":", password_hash);
    match close_object(b) {
        Some(body) => Some(
            HttpRequest {
                method: HttpMethod::Post,
                url: config.url.clone().concat("/auth/v1/token?grant_type=password"),
                headers: make_anonymous_headers(config),
                body: Some(body),
                expects: Expectation::Auth,
            },
        ),
        None => None,
    }
}

/// Builds `renewal_request`.
pub fn build_renewal_request(config: &SupabaseConfig, refresh_token: &str) -> (r: Option<
    HttpRequest,
>)
    ensures
        match r {
            Some(request) => renewal_request(config@, refresh_token@) == Some(request@),
            None => renewal_request(config@, refresh_token@) is None,
        },
{
    let a = push_text_member(Some(String::from_str("")), "{\"refresh_token\":", refresh_token);
    match close_object(a) {
        Some(body) => Some(
            HttpRequest {
                method: HttpMethod::Post,
                url: config.url.clone().concat("/auth/v1/token?grant_type=refresh_token"),
                headers: make_anonymous_headers(config),
                body: Some(body),
                expects: Expectation::Auth,
            },
        ),
        None => None,
    }
}

/// Builds `item_upsert_request`.
pub fn build_item_upsert_request(config: &SupabaseConfig, session: &UserSession, item: &VaultItem)
    -> (r: Option<HttpRequest>)
    ensures
        match r {
            Some(request) => item_upsert_request(config@, session@, item@) == Some(request@),
            None => item_upsert_request(config@, session@, item@) is None,
        },
{
    let a = push_text_member(Some(String::from_str("")), "{\"id\":", item.id.as_str());
    let b = push_text_member(a, ",\"user_id\":", session.user_id.as_str());
    let c = push_text_member(b, ",\"encrypted_data\":", item.encrypted_data.as_str());
    let d = push_text_member(c, ",\"type\":", item.item_type.as_str());
    let e = push_opt_member(d, ",\"folder_id\":", &item.folder_id);
    let f = push_opt_member(e, ",\"deleted_at\":", &item.deleted_at);
    match close_object(f) {
        Some(body) => Some(
            HttpRequest {
                method: HttpMethod::Post,
                url: config.url.clone().concat("/rest/v1/vault_items"),
                headers: make_upsert_headers(config, session.access_token.as_str()),
                body: Some(body),
                expects: Expectation::Nothing,
            },
        ),
        None => None,
    }
}

/// Builds `folder_upsert_request`.
pub fn build_folder_upsert_request(config: &SupabaseConfig, session: &UserSession, folder: &Folder)
    -> (r: Option<HttpRequest>)
    ensures
        match r {
            Some(request) => folder_upsert_request(config@, session@, folder@) == Some(request@),
            None => folder_upsert_request(config@, session@, folder@) is None,
        },
{
    let a = push_text_member(Some(String::from_str("")), "{\"id\":", folder.id.as_str());
    let b = push_text_member(a, ",\"user_id\":", session.user_id.as_str());
    let c = push_text_member(b, ",\"name\":", folder.name.as_str());
    match close_object(c) {
        Some(body) => Some(
            HttpRequest {
                method: HttpMethod::Post,
                url: config.url.clone().concat("/rest/v1/folders"),
                headers: make_upsert_headers(config, session.access_token.as_str()),
                body: Some(body),
                expects: Expectation::Nothing,
            },
        ),
        None => None,
    }
}

/// Builds `delete_request`.
pub fn build_delete_request(config: &SupabaseConfig, session: &UserSession, table: &str, id: &str)
    -> (r: HttpRequest)
    ensures
        r@ == delete_request(config@, session@, table@, id@),
{
    HttpRequest {
        method: HttpMethod::Delete,
        url: config.url.clone().concat("/rest/v1/").concat(table).concat("?id=eq.").concat(id),
        headers: make_bearer_headers(config, session.access_token.as_str()),
        body: None,
        expects: Expectation::Nothing,
    }
}

/// Builds `pull_request`.
pub fn build_pull_request(
    config: &SupabaseConfig,
    session: &UserSession,
    table: &str,
    since: &Option<String>,
    expects: Expectation,
) -> (r: HttpRequest)
    ensures
        r@ == pull_request(config@, session@, table@, opt_text(*since), expects),
{
    let all = config.url.clone().concat("/rest/v1/").concat(table).concat("?user_id=eq.").concat(
        session.user_id.as_str(),
    );
    let url = match since {
        Some(t) => all.concat("&updated_at=gt.").concat(t.as_str()),
        None => all,
    };
    HttpRequest {
        method: HttpMethod::Get,
        url,
        headers: make_bearer_headers(config, session.access_token.as_str()),
        body: None,
        expects,
    }
}

/// A folder of the backend in local shape: acknowledged at `now`, last edited
/// when the server says it was.
pub open spec fn local_folder(remote: SupabaseFolder, now: Seq<char>) -> FolderView {
    FolderView {
        id: remote.id@,
        name: remote.name@,
        synced_at: Some(now),
        local_updated_at: remote.updated_at@,
    }
}

/// A record of the backend in local shape: acknowledged at `now`, last edited
/// locally and on the server when the server says it was. The favourite flag
/// travels inside the encrypted data, so the row starts without it.
pub open spec fn local_item(remote: SupabaseVaultItem, now: Seq<char>) -> VaultItemView {
    VaultItemView {
        id: remote.id@,
        encrypted_data: remote.encrypted_data@,
        item_type: remote.item_type@,
        folder_id: opt_text(remote.folder_id),
        is_favorite: false,
        deleted_at: opt_text(remote.deleted_at),
        synced_at: Some(now),
        local_updated_at: remote.updated_at@,
        server_updated_at: Some(remote.updated_at@),
    }
}

/// The folders of the backend in local shape, in the order they came.
pub open spec fn local_folders(remote: Seq<SupabaseFolder>, now: Seq<char>) -> Seq<FolderView> {
    Seq::new(remote.len(), |i: int| local_folder(remote[i], now))
}

/// The records of the backend in local shape, in the order they came.
pub open spec fn local_items(remote: Seq<SupabaseVaultItem>, now: Seq<char>) -> Seq<
    VaultItemView,
> {
    Seq::new(remote.len(), |i: int| local_item(remote[i], now))
}

/// Brings the folders of the backend into local shape.
pub fn to_local_folders(remote: &Vec<SupabaseFolder>, now: &str) -> (r: Vec<Folder>)
    ensures
        folder_views(r@) == local_folders(remote@, now@),
{
    let mut out: Vec<Folder> = Vec::new();
    let mut i: usize = 0;
    while i < remote.len()
        invariant
            i <= remote.len(),
            out.len() == i,
            forall|k: int| 0 <= k < i ==> (#[trigger] out[k])@ == local_folder(remote[k], now@),
        decreases remote.len() - i,
    {
        let f = &remote[i];
        out.push(
            Folder {
                id: f.id.clone(),
                name: f.name.clone(),
                synced_at: Some(now.to_owned()),
                local_updated_at: f.updated_at.clone(),
            },
        );
        i = i + 1;
    }
    proof {
        assert(folder_views(out@) =~= local_folders(remote@, now@));
    }
    out
}

/// Brings the records of the backend into local shape.
pub fn to_local_items(remote: &Vec<SupabaseVaultItem>, now: &str) -> (r: Vec<VaultItem>)
    ensures
        item_views(r@) == local_items(remote@, now@),
{
    let mut out: Vec<VaultItem> = Vec::new();
    let mut i: usize = 0;
    while i < remote.len()
        invariant
            i <= remote.len(),
            out.len() == i,
            forall|k: int| 0 <= k < i ==> (#[trigger] out[k])@ == local_item(remote[k], now@),
        decreases remote.len() - i,
    {
        let r = &remote[i];
        out.push(
            VaultItem {
                id: r.id.clone(),
                encrypted_data: r.encrypted_data.clone(),
                item_type: r.item_type.clone(),
                folder_id: clone_opt(&r.folder_id),
                is_favorite: false,
                deleted_at: clone_opt(&r.deleted_at),
                synced_at: Some(now.to_owned()),
                local_updated_at: r.updated_at.clone(),
                server_updated_at: Some(r.updated_at.clone()),
            },
        );
        i = i + 1;
    }
    proof {
        assert(item_views(out@) =~= local_items(remote@, now@));
    }
    out
}

/// The question for the latest workflow runs of a repository on GitHub,
/// with a token where there is one.
pub open spec fn github_runs_request(owner: Seq<char>, repo: Seq<char>, token: Option<Seq<char>>)
    -> HttpRequestView {
    let common = seq![
        ("User-Agent"@, "Runner-Manager"@),
        ("Accept"@, "application/vnd.github+json"@),
    ];
    HttpRequestView {
        method: HttpMethod::Get,
        url: "https://api.github.com/repos/"@ + owner + "/"@ + repo
            + "/actions/runs?per_page=10"@,
        headers: match token {
            Some(t) => common.push(("Authorization"@, "Bearer "@ + t)),
            None => common,
        },
        body: None,
        expects: Expectation::Nothing,
    }
}

/// Builds `github_runs_request`.
pub fn build_github_runs_request(owner: &str, repo: &str, token: &Option<String>) -> (r:
    HttpRequest)
    ensures
        r@ == github_runs_request(owner@, repo@, opt_text(*token)),
{
    let mut headers: Vec<HttpHeader> = Vec::new();
    headers.push(header("User-Agent", String::from_str("Runner-Manager")));
    headers.push(header("Accept", String::from_str("application/vnd.github+json")));
    match token {
        Some(t) => {
            headers.push(header("Authorization", String::from_str("Bearer ").concat(t.as_str())));
        },
        None => {},
    }
    let r = HttpRequest {
        method: HttpMethod::Get,
        url: String::from_str("https://api.github.com/repos/").concat(owner).concat("/").concat(
            repo,
        ).concat("/actions/runs?per_page=10"),
        headers,
        body: None,
        expects: Expectation::Nothing,
    };
    proof {
        assert(r@.headers =~= github_runs_request(owner@, repo@, opt_text(*token)).headers);
    }
    r
}

/// What is said of a GitHub answer that is not a success, given the status
/// as a line of text.
pub fn github_error(status_line: &str) -> (r: String)
    ensures
        r@ == "GitHub API error: "@ + status_line@,
{
    String::from_str("GitHub API error: ").concat(status_line)
}

} // verus!
