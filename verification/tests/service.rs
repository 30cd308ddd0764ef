use birchvault::remote::{HttpMethod, HttpRequest};
use birchvault::service::{
    announce_command, command_action, heartbeat_tick, report_command, CommandAction, HostCommand,
    SupabaseClient,
};

const NOW: &str = "2024-06-01T12:00:00+00:00";

fn client() -> SupabaseClient {
    SupabaseClient::new("https://x.supabase.co", "anon")
}

fn cmd(word: &str, pin: bool) -> HostCommand {
    HostCommand { id: "c1".to_string(), command: word.to_string(), pin_verified: pin }
}

fn headers(r: &HttpRequest) -> Vec<(String, String)> {
    r.headers.iter().map(|h| (h.name.clone(), h.value.clone())).collect()
}

fn summary(list: &[HttpRequest]) -> Vec<(HttpMethod, String, Option<String>)> {
    list.iter().map(|r| (r.method, r.url.clone(), r.body.clone())).collect()
}

#[test]
fn heartbeat_comes_every_sixth_round() {
    let mut counter = 0;
    let mut beats = Vec::new();
    for round in 1..=13 {
        let (next, due) = heartbeat_tick(counter);
        counter = next;
        if due {
            beats.push(round);
        }
    }
    assert_eq!(beats, vec![6, 12]);
    assert_eq!(heartbeat_tick(5), (0, true));
    assert_eq!(heartbeat_tick(4), (5, false));
    assert_eq!(heartbeat_tick(u32::MAX), (0, true));
}

#[test]
fn commands_need_a_verified_pin() {
    assert_eq!(command_action(&cmd("start", false)), CommandAction::Refuse);
    assert_eq!(command_action(&cmd("start", true)), CommandAction::Start);
    assert_eq!(command_action(&cmd("stop", true)), CommandAction::Stop);
    assert_eq!(command_action(&cmd("Start", true)), CommandAction::Unknown);
    assert_eq!(command_action(&cmd("", true)), CommandAction::Unknown);
}

#[test]
fn machine_status_request() {
    let r = client().update_machine_status("m1", true, NOW).unwrap();
    assert_eq!(r.method, HttpMethod::Patch);
    assert_eq!(r.url, "https://x.supabase.co/rest/v1/birch_machines?id=eq.m1");
    assert_eq!(r.body.as_deref(), Some("{\"last_seen\":\"2024-06-01T12:00:00+00:00\",\"is_online\":true}"));
    let want: Vec<(String, String)> = [("apikey", "anon"), ("Authorization", "Bearer anon"), ("Content-Type", "application/json")]
        .iter()
        .map(|(a, b)| (a.to_string(), b.to_string()))
        .collect();
    assert_eq!(headers(&r), want);
    let r = client().update_machine_status("m1", false, NOW).unwrap();
    assert!(r.body.unwrap().ends_with("\"is_online\":false}"));
}

#[test]
fn runner_status_and_log_requests() {
    let r = client().update_runner_status("m1", "idle", &None).unwrap();
    assert_eq!(r.url, "https://x.supabase.co/rest/v1/host_machines?machine_id=eq.m1");
    assert_eq!(r.body.as_deref(), Some("{\"runner_status\":\"idle\",\"current_job\":null}"));
    let r = client().update_runner_status("m1", "running", &Some("b\"x".to_string())).unwrap();
    assert_eq!(r.body.as_deref(), Some("{\"runner_status\":\"running\",\"current_job\":\"b\\\"x\"}"));
    let r = client().add_log("m1", "info", "Runner started").unwrap();
    assert_eq!(r.method, HttpMethod::Post);
    assert_eq!(r.url, "https://x.supabase.co/rest/v1/host_logs");
    assert_eq!(r.body.as_deref(), Some("{\"host_machine_id\":\"m1\",\"level\":\"info\",\"message\":\"Runner started\"}"));
}

#[test]
fn pending_commands_request_has_no_body() {
    let r = client().get_pending_commands("m1");
    assert_eq!(r.method, HttpMethod::Get);
    assert_eq!(r.url, "https://x.supabase.co/rest/v1/host_commands?host_machine_id=eq.m1&status=eq.pending&select=*");
    assert_eq!(r.body, None);
    assert_eq!(headers(&r).len(), 2);
}

#[test]
fn command_status_request_tells_a_result_only_where_there_is_one() {
    let r = client().update_command_status("c1", "executing", &None, NOW).unwrap();
    assert_eq!(r.url, "https://x.supabase.co/rest/v1/host_commands?id=eq.c1");
    assert_eq!(r.body.as_deref(), Some("{\"status\":\"executing\",\"executed_at\":\"2024-06-01T12:00:00+00:00\"}"));
    let r = client().update_command_status("c1", "failed", &Some("why".to_string()), NOW).unwrap();
    assert_eq!(r.body.as_deref(), Some("{\"status\":\"failed\",\"executed_at\":\"2024-06-01T12:00:00+00:00\",\"result\":\"why\"}"));
}

#[test]
fn a_command_is_announced_before_it_is_carried_out() {
    let r = announce_command(&client(), &cmd("start", true), NOW).unwrap();
    assert!(r.body.unwrap().starts_with("{\"status\":\"executing\""));
    let r = announce_command(&client(), &cmd("start", false), NOW).unwrap();
    assert_eq!(r.body.as_deref(), Some("{\"status\":\"failed\",\"executed_at\":\"2024-06-01T12:00:00+00:00\",\"result\":\"PIN not verified\"}"));
}

#[test]
fn reports_after_a_start_that_went_well() {
    let list = report_command(&client(), "m1", &cmd("start", true), Ok(()), NOW);
    assert_eq!(
        summary(&list),
        vec![
            (HttpMethod::Patch, "https://x.supabase.co/rest/v1/host_machines?machine_id=eq.m1".to_string(), Some("{\"runner_status\":\"idle\",\"current_job\":null}".to_string())),
            (HttpMethod::Post, "https://x.supabase.co/rest/v1/host_logs".to_string(), Some("{\"host_machine_id\":\"m1\",\"level\":\"info\",\"message\":\"Runner started\"}".to_string())),
            (HttpMethod::Patch, "https://x.supabase.co/rest/v1/host_commands?id=eq.c1".to_string(), Some("{\"status\":\"completed\",\"executed_at\":\"2024-06-01T12:00:00+00:00\"}".to_string())),
        ]
    );
}

#[test]
fn reports_after_a_stop_that_went_well() {
    let list = report_command(&client(), "m1", &cmd("stop", true), Ok(()), NOW);
    let bodies: Vec<String> = list.into_iter().map(|r| r.body.unwrap()).collect();
    assert_eq!(
        bodies,
        vec![
            "{\"runner_status\":\"stopped\",\"current_job\":null}",
            "{\"host_machine_id\":\"m1\",\"level\":\"info\",\"message\":\"Runner stopped\"}",
            "{\"status\":\"completed\",\"executed_at\":\"2024-06-01T12:00:00+00:00\"}",
        ]
    );
}

#[test]
fn reports_after_a_failure() {
    let list = report_command(&client(), "m1", &cmd("start", true), Err("run.cmd not found at C:\\r".to_string()), NOW);
    let bodies: Vec<String> = list.into_iter().map(|r| r.body.unwrap()).collect();
    assert_eq!(
        bodies,
        vec![
            "{\"status\":\"failed\",\"executed_at\":\"2024-06-01T12:00:00+00:00\",\"result\":\"run.cmd not found at C:\\\\r\"}",
            "{\"host_machine_id\":\"m1\",\"level\":\"error\",\"message\":\"Command failed: run.cmd not found at C:\\\\r\"}",
        ]
    );
}

#[test]
fn an_unknown_command_fails_whatever_the_runner_did() {
    let list = report_command(&client(), "m1", &cmd("reboot", true), Ok(()), NOW);
    let bodies: Vec<String> = list.into_iter().map(|r| r.body.unwrap()).collect();
    assert_eq!(
        bodies,
        vec![
            "{\"status\":\"failed\",\"executed_at\":\"2024-06-01T12:00:00+00:00\",\"result\":\"Unknown command: reboot\"}",
            "{\"host_machine_id\":\"m1\",\"level\":\"error\",\"message\":\"Command failed: Unknown command: reboot\"}",
        ]
    );
    assert!(report_command(&client(), "m1", &cmd("start", false), Ok(()), NOW).is_empty());
}
