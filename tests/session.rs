use gensokyo_chen::chen_config::{ChenConfig, ChenJob};
use gensokyo_chen::executor::{job_finished, plan_job, spawn_outcome, wait_failed, JobDecision, LaunchPlan};
use gensokyo_chen::json::{encode_connection_request, encode_heartbeat, encode_job_response};
use gensokyo_chen::models::{ConnectionReason, ConnectionResponse, Heartbeat, JobRequest, JobResponse};
use gensokyo_chen::worker::{route_of, CloseStatus, Event, Inbound, Route, Step, StopReason, Worker};

fn job(executable: &str, arguments: Option<&str>, is_async: bool, allowed: Option<Vec<&str>>) -> ChenJob {
    ChenJob {
        executable: executable.to_string(),
        arguments: arguments.map(|a| a.to_string()),
        timeout: 30,
        is_async,
        allowed_clients: allowed.map(|v| v.into_iter().map(|s| s.to_string()).collect()),
    }
}

fn config(jobs: Vec<(&str, ChenJob)>) -> ChenConfig {
    ChenConfig {
        gensokyo_url: "ws://localhost:9000".to_string(),
        reconnect_timeout: 5,
        client_secret: "s3cret".to_string(),
        jobs: jobs.into_iter().map(|(n, j)| (n.to_string(), j)).collect(),
    }
}

fn request(id: &str, name: &str, data: &str, client: &str) -> JobRequest {
    JobRequest {
        job_id: id.to_string(),
        job_name: name.to_string(),
        job_data: data.to_string(),
        client_name: client.to_string(),
    }
}

fn echo_catalog() -> ChenConfig {
    config(vec![
        ("echo", job("/bin/echo", Some("hi"), false, Some(vec!["alice"]))),
        ("bg", job("/bin/sleep", Some("5"), true, None)),
    ])
}

fn sent(step: Step) -> String {
    match step {
        Step::Send(t) => t,
        other => panic!("expected a send, got {:?}", other),
    }
}

#[test]
fn unknown_job_is_not_found() {
    let w = &mut Worker::new(config(vec![]));
    let step = w.on_event(Event::Message(Inbound::JobRequest("env".to_string(), Some(request("1", "x", "d", "c")))));
    assert_eq!(sent(step), r#"{"job_id":"1","success":false,"async":false,"result":"Job not found"}"#);
    assert!(!w.stopped);
}

#[test]
fn client_outside_allow_list_is_refused() {
    let c = echo_catalog();
    match plan_job(&c, &request("7", "echo", "", "bob")) {
        JobDecision::Respond(r) => {
            assert_eq!(r.job_id, "7");
            assert!(!r.success);
            assert!(!r.is_async);
            assert_eq!(r.result.as_deref(), Some("Client not allowed"));
        }
        JobDecision::Launch(_) => panic!("bob may not run echo"),
    }
}

#[test]
fn client_on_allow_list_gets_a_process() {
    let c = echo_catalog();
    match plan_job(&c, &request("8", "echo", "payload", "alice")) {
        JobDecision::Launch(p) => {
            assert_eq!(p.job_id, "8");
            assert_eq!(p.program, "/bin/echo");
            assert_eq!(p.args, vec!["hi".to_string()]);
            assert!(!p.is_async);
            let env: Vec<(&str, &str)> = p.env.iter().map(|(k, v)| (k.as_str(), v.as_str())).collect();
            assert_eq!(
                env,
                vec![
                    ("GENSOKYO_JOB_ID", "8"),
                    ("GENSOKYO_JOB_NAME", "echo"),
                    ("GENSOKYO_CLIENT_NAME", "alice"),
                    ("GENSOKYO_JOB_DATA", "payload"),
                ]
            );
        }
        JobDecision::Respond(r) => panic!("alice may run echo, got {:?}", r),
    }
}

#[test]
fn empty_allow_list_allows_anyone() {
    let c = config(vec![("open", job("/bin/true", None, false, Some(vec![])))]);
    match plan_job(&c, &request("1", "open", "", "anyone")) {
        JobDecision::Launch(p) => assert!(p.args.is_empty()),
        JobDecision::Respond(r) => panic!("expected a launch, got {:?}", r),
    }
}

#[test]
fn arguments_split_at_whitespace_runs() {
    let c = config(vec![("ls", job("/bin/ls", Some("  -l \t -a\n/tmp "), false, None))]);
    match plan_job(&c, &request("1", "ls", "", "c")) {
        JobDecision::Launch(p) => assert_eq!(p.args, vec!["-l", "-a", "/tmp"]),
        JobDecision::Respond(r) => panic!("expected a launch, got {:?}", r),
    }
}

#[test]
fn job_names_match_exactly() {
    let c = echo_catalog();
    match plan_job(&c, &request("2", "Echo", "", "alice")) {
        JobDecision::Respond(r) => assert_eq!(r.result.as_deref(), Some("Job not found")),
        JobDecision::Launch(_) => panic!("names are case-sensitive"),
    }
}

fn sync_plan() -> LaunchPlan {
    match plan_job(&echo_catalog(), &request("3", "echo", "", "alice")) {
        JobDecision::Launch(p) => p,
        JobDecision::Respond(r) => panic!("expected a launch, got {:?}", r),
    }
}

#[test]
fn synchronous_job_answers_after_exit() {
    let p = sync_plan();
    assert!(spawn_outcome(&p, true).is_none());
    let r = job_finished(&p, true, &b"hi\n".to_vec());
    assert_eq!(encode_job_response(&r), r#"{"job_id":"3","success":true,"async":false,"result":"hi\n"}"#);
}

#[test]
fn synchronous_job_failure_status_is_reported() {
    let r = job_finished(&sync_plan(), false, &b"oops".to_vec());
    assert!(!r.success);
    assert_eq!(r.result.as_deref(), Some("oops"));
}

#[test]
fn invalid_output_bytes_are_replaced() {
    let r = job_finished(&sync_plan(), true, &vec![b'a', 0xff, b'b']);
    assert_eq!(r.result.as_deref(), Some("a\u{FFFD}b"));
}

#[test]
fn asynchronous_job_answers_at_spawn() {
    let p = match plan_job(&echo_catalog(), &request("4", "bg", "", "anyone")) {
        JobDecision::Launch(p) => p,
        JobDecision::Respond(r) => panic!("expected a launch, got {:?}", r),
    };
    assert!(p.is_async);
    let r = spawn_outcome(&p, true).expect("an immediate answer");
    assert_eq!(encode_job_response(&r), r#"{"job_id":"4","success":true,"async":true,"result":null}"#);
}

#[test]
fn failed_spawn_is_reported() {
    let r = spawn_outcome(&sync_plan(), false).expect("an answer");
    assert_eq!(r.job_id, "3");
    assert!(!r.success);
    assert_eq!(r.result.as_deref(), Some("Failed to start job"));
}

#[test]
fn heartbeat_is_echoed_with_acknowledgement() {
    let w = &mut Worker::new(echo_catalog());
    let hb = Heartbeat { timestamp: "T0".to_string(), acknowledged: None };
    let text = sent(w.on_event(Event::Message(Inbound::Heartbeat("h1".to_string(), Some(hb)))));
    let outer: serde_json::Value = serde_json::from_str(&text).unwrap();
    assert_eq!(outer["job_id"], "h1");
    assert_eq!(outer["success"], true);
    assert_eq!(outer["async"], false);
    let inner: serde_json::Value = serde_json::from_str(outer["result"].as_str().unwrap()).unwrap();
    assert_eq!(inner["timestamp"], "T0");
    assert!(!inner["acknowledged"].as_str().unwrap().is_empty());
}

#[test]
fn heartbeat_response_carries_given_time() {
    let hb = Heartbeat { timestamp: "T0".to_string(), acknowledged: None };
    let r = Worker::heartbeat_response(&"h2".to_string(), &hb, "T1".to_string());
    assert_eq!(r.result.as_deref(), Some(r#"{"timestamp":"T0","acknowledged":"T1"}"#));
    assert!(r.success && !r.is_async);
}

#[test]
fn unsupported_route_closes_session() {
    let w = &mut Worker::new(echo_catalog());
    match w.on_event(Event::Message(Inbound::Unsupported)) {
        Step::Close(status, text, why) => {
            assert_eq!(status, CloseStatus::Invalid);
            assert_eq!(text, "Unsupported message type.");
            assert_eq!(why, StopReason::UnsupportedRoute);
        }
        other => panic!("expected a close, got {:?}", other),
    }
    let hb = Heartbeat { timestamp: "T0".to_string(), acknowledged: None };
    assert!(matches!(w.on_event(Event::Message(Inbound::Heartbeat("x".to_string(), Some(hb)))), Step::Finished));
    assert!(w.final_close().is_none());
}

#[test]
fn server_close_is_normal() {
    let w = &mut Worker::new(echo_catalog());
    match w.on_event(Event::Message(Inbound::Close)) {
        Step::Close(status, text, why) => {
            assert_eq!(status, CloseStatus::Normal);
            assert_eq!(text, "Server requested close.");
            assert_eq!(why, StopReason::ServerClosed);
        }
        other => panic!("expected a close, got {:?}", other),
    }
    assert!(w.final_close().is_none());
}

#[test]
fn handshake_success_and_failure() {
    let w = &mut Worker::new(echo_catalog());
    let ok = ConnectionResponse { success: true, reason: ConnectionReason::Success };
    assert!(matches!(w.on_event(Event::Message(Inbound::ConnectionResponse(Some(ok)))), Step::Continue));
    assert!(w.connected);
    let bad = ConnectionResponse { success: false, reason: ConnectionReason::InvalidKey };
    match w.on_event(Event::Message(Inbound::ConnectionResponse(Some(bad)))) {
        Step::Close(status, text, why) => {
            assert_eq!(status, CloseStatus::Invalid);
            assert_eq!(text, "Connection failed.");
            assert_eq!(why, StopReason::ConnectionFailed);
        }
        other => panic!("expected a close, got {:?}", other),
    }
}

#[test]
fn malformed_payloads_stop_without_close_frame() {
    let cases = vec![
        (Event::Undecodable, StopReason::MalformedEnvelope),
        (Event::Ended, StopReason::TransportEnded),
        (Event::Message(Inbound::ConnectionResponse(None)), StopReason::MalformedConnectionResponse),
        (Event::Message(Inbound::Heartbeat("1".to_string(), None)), StopReason::MalformedHeartbeat),
    ];
    for (event, reason) in cases {
        let w = &mut Worker::new(echo_catalog());
        match w.on_event(event) {
            Step::Stop(why) => assert_eq!(why, reason),
            other => panic!("expected a stop, got {:?}", other),
        }
        let (status, text) = w.final_close().expect("the closing frame");
        assert_eq!(status, CloseStatus::Normal);
        assert_eq!(text, "Worker stopped.");
        assert!(w.final_close().is_none());
    }
}

#[test]
fn routes_by_exact_name() {
    assert_eq!(route_of(&"connection_response".to_string()), Route::ConnectionResponse);
    assert_eq!(route_of(&"heartbeat".to_string()), Route::Heartbeat);
    assert_eq!(route_of(&"job_request".to_string()), Route::JobRequest);
    assert_eq!(route_of(&"close".to_string()), Route::Close);
    assert_eq!(route_of(&"frobnicate".to_string()), Route::Unsupported);
    assert_eq!(route_of(&"Heartbeat".to_string()), Route::Unsupported);
}

#[test]
fn repeated_requests_get_same_decision() {
    let c = echo_catalog();
    let w = &mut Worker::new(c);
    let a = sent(w.on_event(Event::Message(Inbound::JobRequest("env".to_string(), Some(request("5", "echo", "", "bob"))))));
    let b = sent(w.on_event(Event::Message(Inbound::JobRequest("env".to_string(), Some(request("5", "echo", "", "bob"))))));
    assert_eq!(a, b);
    assert_eq!(a, r#"{"job_id":"5","success":false,"async":false,"result":"Client not allowed"}"#);
}

#[test]
fn strings_are_escaped() {
    let r = JobResponse {
        job_id: "q\"1".to_string(),
        success: true,
        is_async: false,
        result: Some("line\n\\".to_string()),
    };
    assert_eq!(encode_job_response(&r), r#"{"job_id":"q\"1","success":true,"async":false,"result":"line\n\\"}"#);
    let h = Heartbeat { timestamp: "t".to_string(), acknowledged: None };
    assert_eq!(encode_heartbeat(&h), r#"{"timestamp":"t","acknowledged":null}"#);
}

#[test]
fn connection_request_lists_catalog() {
    let w = Worker::new(echo_catalog());
    let c = w.connection_request("host1".to_string());
    assert_eq!(
        encode_connection_request(&c),
        r#"{"client_secret":"s3cret","friendly_name":"host1","jobs_available":["echo","bg"]}"#
    );
    let empty = Worker::new(config(vec![])).connection_request("h".to_string());
    assert_eq!(
        encode_connection_request(&empty),
        r#"{"client_secret":"s3cret","friendly_name":"h","jobs_available":[]}"#
    );
    assert!(w.opening_message().map_or(true, |t| t.contains("\"jobs_available\":[\"echo\",\"bg\"]")));
}

#[test]
fn duplicate_job_names_are_detected() {
    assert!(echo_catalog().has_distinct_names());
    assert!(config(vec![]).has_distinct_names());
    let dup = config(vec![("a", job("/bin/true", None, false, None)), ("a", job("/bin/false", None, false, None))]);
    assert!(!dup.has_distinct_names());
}

#[test]
fn undecodable_job_body_is_refused_and_session_goes_on() {
    let w = &mut Worker::new(echo_catalog());
    let text = sent(w.on_event(Event::Message(Inbound::JobRequest("e9".to_string(), None))));
    assert_eq!(text, r#"{"job_id":"e9","success":false,"async":false,"result":"Failed to parse job request."}"#);
    assert!(!w.stopped);
    let next = w.on_event(Event::Message(Inbound::JobRequest("e10".to_string(), Some(request("1", "x", "", "c")))));
    assert_eq!(sent(next), r#"{"job_id":"1","success":false,"async":false,"result":"Job not found"}"#);
}

#[test]
fn failed_wait_is_reported() {
    let r = wait_failed(&sync_plan());
    assert_eq!(encode_job_response(&r), r#"{"job_id":"3","success":false,"async":false,"result":"Failed to wait for job"}"#);
}

#[test]
fn control_characters_are_escaped() {
    let h = Heartbeat { timestamp: "a\tb\u{1}\u{1f}\u{8}\u{c}\r".to_string(), acknowledged: Some("\u{7f}\u{e9}".to_string()) };
    assert_eq!(
        encode_heartbeat(&h),
        "{\"timestamp\":\"a\\tb\\u0001\\u001f\\b\\f\\r\",\"acknowledged\":\"\u{7f}\u{e9}\"}"
    );
}
