//! The background service of a host: it reports that the machine is alive
//! and carries out the commands that were queued for it remotely.

use vstd::prelude::*;
use vstd::string::*;
use crate::json::{
    close_object, closed, json_bool, json_quoted, json_quoted_opt, push_bool_member,
    push_opt_member, push_text_member, with_member,
};
use crate::remote::{header, Expectation, HttpHeader, HttpMethod, HttpRequest, HttpRequestView};
use crate::text::{opt_text, text_eq};

verus! {

/// What the service needs to know.
#[derive(Debug)]
pub struct ServiceConfig {
    pub supabase_url: String,
    pub supabase_anon_key: String,
    pub machine_id: Option<String>,
    pub runner_path: Option<String>,
}

/// A command that was queued for this host.
#[derive(Debug)]
pub struct HostCommand {
    pub id: String,
    pub command: String,
    pub pin_verified: bool,
}

/// The address and the key of the backend.
#[derive(Debug)]
pub struct SupabaseClient {
    pub url: String,
    pub anon_key: String,
}

/// How many rounds of the service loop pass between two heartbeats.
pub const HEARTBEAT_ROUNDS: u32 = 6;

/// The headers of every call of the service: the key, the key again as
/// bearer token, and the content type where there is a body.
pub open spec fn service_headers(anon_key: Seq<char>, with_body: bool) -> Seq<
    (Seq<char>, Seq<char>),
> {
    if with_body {
        seq![
            ("apikey"@, anon_key),
            ("Authorization"@, "Bearer "@ + anon_key),
            ("Content-Type"@, "application/json"@),
        ]
    } else {
        seq![("apikey"@, anon_key), ("Authorization"@, "Bearer "@ + anon_key)]
    }
}

/// The report that the machine is alive, or going away; `None` where a
/// value has no JSON form.
pub open spec fn machine_status_request(
    url: Seq<char>,
    anon_key: Seq<char>,
    machine_id: Seq<char>,
    is_online: bool,
    now: Seq<char>,
) -> Option<HttpRequestView> {
    let a = with_member(Some(""@), "{\"last_seen\":"@, json_quoted(now));
    let b = with_member(a, ",\"is_online\":"@, Some(json_bool(is_online)));
    match closed(b) {
        Some(body) => Some(
            HttpRequestView {
                method: HttpMethod::Patch,
                url: url + "/rest/v1/birch_machines?id=eq."@ + machine_id,
                headers: service_headers(anon_key, true),
                body: Some(body),
                expects: Expectation::Nothing,
            },
        ),
        None => None,
    }
}

/// The report of what the runner is doing.
pub open spec fn runner_status_request(
    url: Seq<char>,
    anon_key: Seq<char>,
    machine_id: Seq<char>,
    status: Seq<char>,
    current_job: Option<Seq<char>>,
) -> Option<HttpRequestView> {
    let a = with_member(Some(""@), "{\"runner_status\":"@, json_quoted(status));
    let b = with_member(a, ",\"current_job\":"@, json_quoted_opt(current_job));
    match closed(b) {
        Some(body) => Some(
            HttpRequestView {
                method: HttpMethod::Patch,
                url: url + "/rest/v1/host_machines?machine_id=eq."@ + machine_id,
                headers: service_headers(anon_key, true),
                body: Some(body),
                expects: Expectation::Nothing,
            },
        ),
        None => None,
    }
}

/// The question for the commands that wait for this host.
pub open spec fn pending_commands_request(
    url: Seq<char>,
    anon_key: Seq<char>,
    host_machine_id: Seq<char>,
) -> HttpRequestView {
    HttpRequestView {
        method: HttpMethod::Get,
        url: url + "/rest/v1/host_commands?host_machine_id=eq."@ + host_machine_id
            + "&status=eq.pending&select=*"@,
        headers: service_headers(anon_key, false),
        body: None,
        expects: Expectation::Nothing,
    }
}

/// The report of how far a command has got; a result is told only where
/// there is one.
pub open spec fn command_status_request(
    url: Seq<char>,
    anon_key: Seq<char>,
    command_id: Seq<char>,
    status: Seq<char>,
    result: Option<Seq<char>>,
    now: Seq<char>,
) -> Option<HttpRequestView> {
    let a = with_member(Some(""@), "{\"status\":"@, json_quoted(status));
    let b = with_member(a, ",\"executed_at\":"@, json_quoted(now));
    let c = match result {
        Some(r) => with_member(b, ",\"result\":"@, json_quoted(r)),
        None => b,
    };
    match closed(c) {
        Some(body) => Some(
            HttpRequestView {
                method: HttpMethod::Patch,
                url: url + "/rest/v1/host_commands?id=eq."@ + command_id,
                headers: service_headers(anon_key, true),
                body: Some(body),
                expects: Expectation::Nothing,
            },
        ),
        None => None,
    }
}

/// A line for the host's log on the backend.
pub open spec fn log_request(
    url: Seq<char>,
    anon_key: Seq<char>,
    host_machine_id: Seq<char>,
    level: Seq<char>,
    message: Seq<char>,
) -> Option<HttpRequestView> {
    let a = with_member(Some(""@), "{\"host_machine_id\":"@, json_quoted(host_machine_id));
    let b = with_member(a, ",\"level\":"@, json_quoted(level));
    let c = with_member(b, ",\"message\":"@, json_quoted(message));
    match closed(c) {
        Some(body) => Some(
            HttpRequestView {
                method: HttpMethod::Post,
                url: url + "/rest/v1/host_logs"@,
                headers: service_headers(anon_key, true),
                body: Some(body),
                expects: Expectation::Nothing,
            },
        ),
        None => None,
    }
}

/// The view of an optional request.
pub open spec fn opt_request(r: Option<HttpRequest>) -> Option<HttpRequestView> {
    match r {
        Some(request) => Some(request@),
        None => None,
    }
}

impl SupabaseClient {
    /// A client for the backend at `url`.
    pub fn new(url: &str, anon_key: &str) -> (c: SupabaseClient)
        ensures
            c.url@ == url@,
            c.anon_key@ == anon_key@,
    {
        SupabaseClient { url: url.to_owned(), anon_key: anon_key.to_owned() }
    }

    fn headers(&self, with_body: bool) -> (r: Vec<HttpHeader>)
        ensures
            Seq::new(r.len() as nat, |i: int| (r[i].name@, r[i].value@)) == service_headers(
                self.anon_key@,
                with_body,
            ),
    {
        let mut r: Vec<HttpHeader> = Vec::new();
        r.push(header("apikey", self.anon_key.clone()));
        r.push(
            header("Authorization", String::from_str("Bearer ").concat(self.anon_key.as_str())),
        );
        if with_body {
            r.push(header("Content-Type", String::from_str("application/json")));
        }
        proof {
            assert(Seq::new(r.len() as nat, |i: int| (r[i].name@, r[i].value@))
                =~= service_headers(self.anon_key@, with_body));
        }
        r
    }

    fn patch(&self, url: String, body: Option<String>) -> (r: Option<HttpRequest>)
        ensures
            opt_request(r) == (match opt_text(body) {
                Some(b) => Some(
                    HttpRequestView {
                        method: HttpMethod::Patch,
                        url: url@,
                        headers: service_headers(self.anon_key@, true),
                        body: Some(b),
                        expects: Expectation::Nothing,
                    },
                ),
                None => None,
            }),
    {
        match body {
            Some(b) => Some(
                HttpRequest {
                    method: HttpMethod::Patch,
                    url,
                    headers: self.headers(true),
                    body: Some(b),
                    expects: Expectation::Nothing,
                },
            ),
            None => None,
        }
    }

    /// Builds `machine_status_request`.
    pub fn update_machine_status(&self, machine_id: &str, is_online: bool, now: &str) -> (r: Option<
        HttpRequest,
    >)
        ensures
            opt_request(r) == machine_status_request(
                self.url@,
                self.anon_key@,
                machine_id@,
                is_online,
                now@,
            ),
    {
        let a = push_text_member(Some(String::from_str("")), "{\"last_seen\":", now);
        let b = push_bool_member(a, ",\"is_online\":", is_online);
        self.patch(
            self.url.clone().concat("/rest/v1/birch_machines?id=eq.").concat(machine_id),
            close_object(b),
        )
    }

    /// Builds `runner_status_request`.
    pub fn update_runner_status(&self, machine_id: &str, status: &str, current_job: &Option<String>)
        -> (r: Option<HttpRequest>)
        ensures
            opt_request(r) == runner_status_request(
                self.url@,
                self.anon_key@,
                machine_id@,
                status@,
                opt_text(*current_job),
            ),
    {
        let a = push_text_member(Some(String::from_str("")), "{\"runner_status\":", status);
        let b = push_opt_member(a, ",\"current_job\":", current_job);
        self.patch(
            self.url.clone().concat("/rest/v1/host_machines?machine_id=eq.").concat(machine_id),
            close_object(b),
        )
    }

    /// Builds `pending_commands_request`.
    pub fn get_pending_commands(&self, host_machine_id: &str) -> (r: HttpRequest)
        ensures
            r@ == pending_commands_request(self.url@, self.anon_key@, host_machine_id@),
    {
        HttpRequest {
            method: HttpMethod::Get,
            url: self.url.clone().concat("/rest/v1/host_commands?host_machine_id=eq.").concat(
                host_machine_id,
            ).concat("&status=eq.pending&select=*"),
            headers: self.headers(false),
            body: None,
            expects: Expectation::Nothing,
        }
    }

    /// Builds `command_status_request`.
    pub fn update_command_status(
        &self,
        command_id: &str,
        status: &str,
        result: &Option<String>,
        now: &str,
    ) -> (r: Option<HttpRequest>)
        ensures
            opt_request(r) == command_status_request(
                self.url@,
                self.anon_key@,
                command_id@,
                status@,
                opt_text(*result),
                now@,
            ),
    {
        let a = push_text_member(Some(String::from_str("")), "{\"status\":", status);
        let b = push_text_member(a, ",\"executed_at\":", now);
        let c = match result {
            Some(text) => push_text_member(b, ",\"result\":", text.as_str()),
            None => b,
        };
        self.patch(
            self.url.clone().concat("/rest/v1/host_commands?id=eq.").concat(command_id),
            close_object(c),
        )
    }

    /// Builds `log_request`.
    pub fn add_log(&self, host_machine_id: &str, level: &str, message: &str) -> (r: Option<
        HttpRequest,
    >)
        ensures
            opt_request(r) == log_request(
                self.url@,
                self.anon_key@,
                host_machine_id@,
                level@,
                message@,
            ),
    {
        let a = push_text_member(
            Some(String::from_str("")),
            "{\"host_machine_id\":",
            host_machine_id,
        );
        let b = push_text_member(a, ",\"level\":", level);
        let c = push_text_member(b, ",\"message\":", message);
        match close_object(c) {
            Some(body) => Some(
                HttpRequest {
                    method: HttpMethod::Post,
                    url: self.url.clone().concat("/rest/v1/host_logs"),
                    headers: self.headers(true),
                    body: Some(body),
                    expects: Expectation::Nothing,
                },
            ),
            None => None,
        }
    }
}

/// The round counter after one more round, and whether a heartbeat is due:
/// it is on every sixth round, and the count starts over then.
pub fn heartbeat_tick(counter: u32) -> (r: (u32, bool))
    ensures
        counter >= 5 ==> r == (0u32, true),
        counter < 5 ==> r == ((counter + 1) as u32, false),
{
    if counter >= HEARTBEAT_ROUNDS - 1 {
        (0, true)
    } else {
        (counter + 1, false)
    }
}

/// What is done about a command.
#[derive(Debug, Clone, Copy, PartialEq, Eq, Structural)]
pub enum CommandAction {
    /// The PIN was not verified: the command is failed without being
    /// looked at.
    Refuse,
    /// The runner is started.
    Start,
    /// The runner is stopped.
    Stop,
    /// The command is not known.
    Unknown,
}

/// What is done about a command: nothing without a verified PIN, and
/// otherwise what its word says.
pub open spec fn action_of(pin_verified: bool, command: Seq<char>) -> CommandAction {
    if !pin_verified {
        CommandAction::Refuse
    } else if command == "start"@ {
        CommandAction::Start
    } else if command == "stop"@ {
        CommandAction::Stop
    } else {
        CommandAction::Unknown
    }
}

/// Decides `action_of`.
pub fn command_action(command: &HostCommand) -> (r: CommandAction)
    ensures
        r == action_of(command.pin_verified, command.command@),
{
    if !command.pin_verified {
        CommandAction::Refuse
    } else if text_eq(command.command.as_str(), "start") {
        CommandAction::Start
    } else if text_eq(command.command.as_str(), "stop") {
        CommandAction::Stop
    } else {
        CommandAction::Unknown
    }
}

/// What is told the backend before a command is carried out: that it has
/// failed, where the PIN was not verified, and that it is being executed
/// otherwise.
pub fn announce_command(client: &SupabaseClient, command: &HostCommand, now: &str) -> (r: Option<
    HttpRequest,
>)
    ensures
        opt_request(r) == (if command.pin_verified {
            command_status_request(client.url@, client.anon_key@, command.id@, "executing"@, None, now@)
        } else {
            command_status_request(
                client.url@,
                client.anon_key@,
                command.id@,
                "failed"@,
                Some("PIN not verified"@),
                now@,
            )
        }),
{
    if command.pin_verified {
        client.update_command_status(command.id.as_str(), "executing", &None, now)
    } else {
        client.update_command_status(
            command.id.as_str(),
            "failed",
            &Some(String::from_str("PIN not verified")),
            now,
        )
    }
}

/// How a command ended, given how the runner took it: an unknown command
/// has failed whatever the runner did.
pub open spec fn command_result(command: Seq<char>, runner: Result<(), Seq<char>>) -> Result<
    (),
    Seq<char>,
> {
    if command == "start"@ || command == "stop"@ {
        runner
    } else {
        Err("Unknown command: "@ + command)
    }
}

/// The views of a list of requests that could be written, in order.
pub open spec fn request_views(v: Seq<HttpRequest>) -> Seq<HttpRequestView> {
    Seq::new(v.len(), |i: int| v[i]@)
}

/// A list with one more request, where there is one.
pub open spec fn with_request(so_far: Seq<HttpRequestView>, r: Option<HttpRequestView>) -> Seq<
    HttpRequestView,
> {
    match r {
        Some(request) => so_far.push(request),
        None => so_far,
    }
}

/// What is told the backend after a command with a verified PIN was carried
/// out. After a start or a stop that went well: what the runner is doing
/// now, a line for the log, and that the command is completed. After a
/// failure: that the command has failed and why, and a line for the log.
pub open spec fn reports_after(
    url: Seq<char>,
    anon_key: Seq<char>,
    machine_id: Seq<char>,
    command_id: Seq<char>,
    command: Seq<char>,
    runner: Result<(), Seq<char>>,
    now: Seq<char>,
) -> Seq<HttpRequestView> {
    match command_result(command, runner) {
        Ok(_) => {
            let (state, line) = if command == "start"@ {
                ("idle"@, "Runner started"@)
            } else {
                ("stopped"@, "Runner stopped"@)
            };
            let a = with_request(
                Seq::empty(),
                runner_status_request(url, anon_key, machine_id, state, None),
            );
            let b = with_request(a, log_request(url, anon_key, machine_id, "info"@, line));
            with_request(
                b,
                command_status_request(url, anon_key, command_id, "completed"@, None, now),
            )
        },
        Err(e) => {
            let a = with_request(
                Seq::empty(),
                command_status_request(url, anon_key, command_id, "failed"@, Some(e), now),
            );
            with_request(
                a,
                log_request(url, anon_key, machine_id, "error"@, "Command failed: "@ + e),
            )
        },
    }
}

fn push_request(list: &mut Vec<HttpRequest>, r: Option<HttpRequest>)
    ensures
        request_views(final(list)@) == with_request(request_views(old(list)@), opt_request(r)),
{
    match r {
        Some(request) => {
            list.push(request);
            proof {
                assert(request_views(list@) =~= request_views(old(list)@).push(request@));
            }
        },
        None => {},
    }
}

/// What is told the backend after a command: nothing more where the PIN was
/// not verified, and otherwise `reports_after`. `runner` is how the runner
/// took the start or the stop; for any other command it is not looked at.
pub fn report_command(
    client: &SupabaseClient,
    machine_id: &str,
    command: &HostCommand,
    runner: Result<(), String>,
    now: &str,
) -> (r: Vec<HttpRequest>)
    ensures
        request_views(r@) == (if command.pin_verified {
            reports_after(
                client.url@,
                client.anon_key@,
                machine_id@,
                command.id@,
                command.command@,
                match runner {
                    Ok(_) => Ok(()),
                    Err(e) => Err(e@),
                },
                now@,
            )
        } else {
            Seq::empty()
        }),
{
    if !command.pin_verified {
        let none: Vec<HttpRequest> = Vec::new();
        proof {
            assert(request_views(none@) =~= Seq::empty());
        }
        return none;
    }
    let word = command.command.as_str();
    let is_start = text_eq(word, "start");
    let result = if is_start || text_eq(word, "stop") {
        runner
    } else {
        Err(String::from_str("Unknown command: ").concat(word))
    };
    let mut list: Vec<HttpRequest> = Vec::new();
    proof {
        assert(request_views(list@) =~= Seq::empty());
    }
    match result {
        Ok(_) => {
            if is_start {
                push_request(&mut list, client.update_runner_status(machine_id, "idle", &None));
                push_request(&mut list, client.add_log(machine_id, "info", "Runner started"));
            } else {
                push_request(&mut list, client.update_runner_status(machine_id, "stopped", &None));
                push_request(&mut list, client.add_log(machine_id, "info", "Runner stopped"));
            }
            push_request(
                &mut list,
                client.update_command_status(command.id.as_str(), "completed", &None, now),
            );
        },
        Err(e) => {
            let line = String::from_str("Command failed: ").concat(e.as_str());
            push_request(
                &mut list,
                client.update_command_status(command.id.as_str(), "failed", &Some(e), now),
            );
            push_request(&mut list, client.add_log(machine_id, "error", line.as_str()));
        },
    }
    list
}

} // verus!
