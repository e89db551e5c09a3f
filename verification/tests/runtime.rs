use sentinella_agent::clock::show_instant;
use sentinella_agent::command::CommandResult;
use sentinella_agent::config::Config;
use sentinella_agent::dependency::parse_tetragon_record;
use sentinella_agent::failure::{status_from, status_snapshot_from};
use sentinella_agent::health::{
    health_reply, set_dependency_ready, set_dependency_required, HealthBody, Readiness,
};
use sentinella_agent::hub::{
    ack_url, ack_warning, alternate_route, body_preview, body_preview_opt, check_api_key, cluster_status_refusal,
    cluster_status_url,
    decode_failure, duplicate_warning, inventory_url, poll_step, poll_timeout_secs, poll_url, send_step, HttpOutcome,
    HttpReply, KeyState, PollStep, RouteFamily, SendStep,
};
use sentinella_agent::leader::{leader_step, LeaderState, LeaseOutcome};
use sentinella_agent::model::{ClusterStatus, SnapshotCreated, KV};
use sentinella_agent::runtime::{
    age_in_seconds, check_cluster_age, config_for_mode, describe_metrics_status, last_seen_age_seconds, log_filter,
    parse_runtime_mode, reported_agent_version, should_restart_after_ack, startup_duplicate_cluster_check,
    ClusterCheck, RuntimeMode, WarnDecision, WarnSuppression,
};
use sentinella_agent::tetragon::{
    already_exists_like, coverage_snapshot, discover_addresses, event_line, event_time_fits, fall_back_after_failure,
    grpc_endpoint, init_streams, plan_streams, snapshot_ndjson, timestamp_ms, DiscoveredEndpoint, DiscoveredSlice,
    EventBuffer, EventTime, KprobeArgument, KprobeEvent, SockArgument, StreamEntry, StreamSource, StreamTable,
};

fn kv(key: &str, value: &str) -> KV {
    KV { key: key.to_string(), value: value.to_string() }
}

fn test_config(version_override: Option<&str>) -> Config {
    let env = vec![
        kv("HUB_URL", "https://api.hub.sentinel.la"),
        kv("CLUSTER_ID", "cluster-dev"),
        kv("POD_NAME", "pod-1"),
        kv("POD_NAMESPACE", "sentinella"),
        kv("NODE_NAME", "node-1"),
        kv("LEASE_NAME", "lease"),
        kv("WORKLOAD_MONITORING_TARGETS", "angular,spring_boot"),
    ];
    let mut cfg = Config::from_env(&env).expect("settings");
    cfg.agent_version_override = version_override.map(ToString::to_string);
    cfg
}

#[test]
fn reported_agent_version_uses_override_when_set() {
    let cfg = test_config(Some("dev"));
    assert_eq!(reported_agent_version(&cfg, "0.1.0"), "dev");
}

#[test]
fn reported_agent_version_falls_back_to_package_version() {
    let cfg = test_config(None);
    assert_eq!(reported_agent_version(&cfg, "0.1.0"), "0.1.0");
}

#[test]
fn last_seen_age_seconds_parses_rfc3339() {
    let age = last_seen_age_seconds("2000-01-01T00:00:00Z").unwrap();
    assert!(age > 0);
}

#[test]
fn last_seen_age_seconds_rejects_invalid_values() {
    assert!(last_seen_age_seconds("not-a-timestamp").is_none());
}

#[test]
fn times_are_shown_in_utc() {
    assert_eq!(show_instant((946_684_800, 0)), "2000-01-01T00:00:00Z");
    assert_eq!(show_instant((0, 500_000_000)), "1970-01-01T00:00:00.5Z");
    assert_eq!(show_instant((i64::MAX, 0)), "1970-01-01T00:00:00Z");
}

#[test]
fn parse_runtime_mode_defaults_to_agent() {
    let mode = parse_runtime_mode(&Vec::<String>::new()).unwrap();

    assert_eq!(mode, RuntimeMode::Agent);
}

#[test]
fn parse_runtime_mode_accepts_separate_flag_value() {
    let mode = parse_runtime_mode(&vec!["--mode".into(), "operator".into()]).unwrap();

    assert_eq!(mode, RuntimeMode::Operator);
}

#[test]
fn parse_runtime_mode_accepts_equals_syntax() {
    let mode = parse_runtime_mode(&vec!["--mode=operator".into()]).unwrap();

    assert_eq!(mode, RuntimeMode::Operator);
}

#[test]
fn parse_runtime_mode_rejects_invalid_value() {
    let err = parse_runtime_mode(&vec!["--mode".into(), "invalid".into()]).unwrap_err();

    assert!(err.to_string().contains("invalid runtime mode"));
}

#[test]
fn operator_mode_needs_no_hub() {
    assert!(config_for_mode(RuntimeMode::Operator, &vec![]).is_ok());
    assert!(config_for_mode(RuntimeMode::Agent, &vec![]).is_err());
    assert_eq!(RuntimeMode::Operator.as_str(), "operator");
}

#[test]
fn log_filter_goes_by_the_agent_then_by_the_alias() {
    assert_eq!(log_filter(&vec![kv("AGENT_LOG", "debug"), kv("RUST_LOG", "warn")]), "debug");
    assert_eq!(log_filter(&vec![kv("RUST_LOG", "warn")]), "warn");
}

// ---- Warnings ----

#[test]
fn warnings_are_held_back_for_a_while() {
    let mut warnings = WarnSuppression::new();
    assert_eq!(warnings.warn_with_suppression("k", 0), WarnDecision::Emit(0));
    assert_eq!(warnings.warn_with_suppression("k", 1_000), WarnDecision::Suppress);
    assert_eq!(warnings.warn_with_suppression("other", 1_000), WarnDecision::Emit(0));
    assert_eq!(warnings.warn_with_suppression("k", 60_000), WarnDecision::Emit(1));
}

#[test]
fn a_change_of_state_is_told_at_once() {
    let mut warnings = WarnSuppression::new();
    let missing = status_from("missing", "metrics-server not installed", "metrics.k8s.io/v1", 0, 0);
    let forbidden = status_from("forbidden", "no", "metrics.k8s.io/v1", 0, 0);
    let fine = status_from("ok", "", "metrics.k8s.io/v1", 3, 0);
    assert_eq!(warnings.warn_metrics_status_change(&fine, 0), None);
    assert_eq!(warnings.warn_metrics_status_change(&missing, 0), Some(WarnDecision::Emit(0)));
    assert_eq!(warnings.warn_metrics_status_change(&missing, 10_000), Some(WarnDecision::Suppress));
    assert!(matches!(warnings.warn_metrics_status_change(&forbidden, 20_000), Some(WarnDecision::Emit(_))));
    assert_eq!(warnings.warn_metrics_status_change(&forbidden, 25_000), Some(WarnDecision::Suppress));
    assert_eq!(warnings.warn_metrics_status_change(&fine, 30_000), None);
    assert_eq!(warnings.warn_metrics_status_change(&forbidden, 35_000), Some(WarnDecision::Emit(0)));
    let snapshots = status_snapshot_from("missing", "", "snapshot.storage.k8s.io/v1", 0, 0, 0);
    assert!(matches!(warnings.warn_snapshot_api_status_change(&snapshots, 0), Some(WarnDecision::Emit(_))));
    let there = status_snapshot_from("ok", "", "snapshot.storage.k8s.io/v1", 1, 1, 0);
    assert_eq!(warnings.warn_snapshot_api_status_change(&snapshots, 1_000), Some(WarnDecision::Suppress));
    assert_eq!(warnings.warn_snapshot_api_status_change(&there, 2_000), None);
    assert_eq!(warnings.warn_snapshot_api_status_change(&snapshots, 3_000), Some(WarnDecision::Emit(0)));
    assert_eq!(warnings.warn_metrics_status_change(&forbidden, 40_000), Some(WarnDecision::Suppress));
    assert_eq!(describe_metrics_status(&fine), None);
    assert!(describe_metrics_status(&missing).unwrap().contains("reason=metrics-server not installed"));
}

// ---- Duplicate clusters ----

#[test]
fn a_cluster_that_was_seen_lately_is_a_duplicate() {
    assert_eq!(age_in_seconds((100, 0), (160, 0)), 60);
    assert_eq!(check_cluster_age(true, Some(60)), ClusterCheck::Duplicate(60));
    assert_eq!(check_cluster_age(true, Some(301)), ClusterCheck::Quiet);
    assert_eq!(check_cluster_age(true, None), ClusterCheck::Invalid);
    assert_eq!(check_cluster_age(false, None), ClusterCheck::Quiet);
    let unseen = ClusterStatus::default();
    assert_eq!(startup_duplicate_cluster_check(&unseen), ClusterCheck::Quiet);
    let long_ago = ClusterStatus { last_seen_at: Some("2000-01-01T00:00:00Z".into()), k8s_uid: None };
    assert_eq!(startup_duplicate_cluster_check(&long_ago), ClusterCheck::Quiet);
}

// ---- Results of commands ----

#[test]
fn command_result_simple_fields() {
    let r = CommandResult::simple("cmd-1".into(), "ok", None);
    assert_eq!(r.command_id, "cmd-1");
    assert_eq!(r.status, "ok");
    assert!(r.message.is_none());
    assert!(r.dry_run.is_none());
    assert!(r.applied_patch.is_none());
    assert!(r.warnings.is_empty());
    assert!(r.finished_at_ms > 0);
}

#[test]
fn command_result_simple_with_message() {
    let r = CommandResult::simple("cmd-2".into(), "error", Some("boom".into()));
    assert_eq!(r.message.as_deref(), Some("boom"));
}

#[test]
fn the_agent_exits_only_after_a_granted_restart() {
    let mut r = CommandResult::simple("cmd-1".into(), "ok", None);
    assert!(!should_restart_after_ack(&r));
    r.restart_requested = Some(true);
    assert!(should_restart_after_ack(&r));
    r.status = "error";
    assert!(!should_restart_after_ack(&r));
}

// ---- The hub ----

fn reply(status: u16, body: Option<&str>) -> HttpOutcome {
    HttpOutcome::Replied(HttpReply {
        status,
        status_text: format!("{status}"),
        content_type: "application/json".to_string(),
        body: body.map(str::to_string),
    })
}

#[test]
fn urls_follow_the_family_of_routes() {
    let cfg = test_config(None);
    assert_eq!(
        inventory_url(&cfg, RouteFamily::Legacy),
        "https://api.hub.sentinel.la/v1/clusters/cluster-dev/inventory"
    );
    assert_eq!(inventory_url(&cfg, RouteFamily::Api), "https://api.hub.sentinel.la/api/v1/agent/ingest");
    assert_eq!(
        poll_url(&cfg, RouteFamily::Api),
        "https://api.hub.sentinel.la/api/v1/clusters/cluster-dev/commands/poll?wait=30s"
    );
    assert_eq!(
        ack_url(&cfg, RouteFamily::Legacy, "c1"),
        "https://api.hub.sentinel.la/v1/clusters/cluster-dev/commands/c1/ack"
    );
    assert_eq!(
        cluster_status_url(&cfg, RouteFamily::Legacy),
        "https://api.hub.sentinel.la/v1/clusters/cluster-dev"
    );
    assert_eq!(poll_timeout_secs(&cfg), 40);
    assert_eq!(check_api_key(&cfg), KeyState::Missing);
}

#[test]
fn an_unknown_route_is_tried_in_the_other_family_once() {
    let lost = reply(404, None);
    assert_eq!(alternate_route(RouteFamily::Legacy, false, &lost), Some(RouteFamily::Api));
    assert_eq!(alternate_route(RouteFamily::Api, true, &lost), None);
    assert_eq!(alternate_route(RouteFamily::Legacy, false, &reply(500, None)), None);
}

#[test]
fn snapshots_are_sent_again_where_that_helps() {
    assert!(matches!(send_step(0, &reply(201, None)), SendStep::Sent));
    assert!(matches!(send_step(0, &reply(400, Some("bad"))), SendStep::Failed(ref m) if m.contains("body_preview=bad")));
    assert!(matches!(send_step(0, &reply(429, None)), SendStep::Again(1, 2, _)));
    assert!(matches!(send_step(1, &reply(500, None)), SendStep::Again(2, 5, _)));
    match send_step(2, &HttpOutcome::Failed("refused".to_string())) {
        SendStep::Failed(message) => assert_eq!(message, "attempt 3 error: refused"),
        _ => panic!("that was the last attempt"),
    }
    assert!(duplicate_warning(&SnapshotCreated { already_existed: true }).is_some());
    assert!(duplicate_warning(&SnapshotCreated::default()).is_none());
}

#[test]
fn polls_without_work_are_empty() {
    assert!(matches!(poll_step(&HttpOutcome::TimedOut("slow".to_string())), PollStep::Empty));
    assert!(matches!(poll_step(&reply(204, None)), PollStep::Empty));
    assert!(matches!(poll_step(&reply(200, Some(""))), PollStep::Empty));
    assert!(matches!(poll_step(&reply(200, Some("{}"))), PollStep::Decode(ref body) if body == "{}"));
    assert!(matches!(poll_step(&reply(503, Some("down"))), PollStep::Failed(ref m) if m.starts_with("poll status 503")));
    if let HttpOutcome::Replied(r) = reply(200, Some("<html>")) {
        assert!(decode_failure("expected value", &r).contains("body_preview=<html>"));
        assert_eq!(ack_warning(&r), None);
        assert_eq!(cluster_status_refusal(&r), None);
    }
    if let HttpOutcome::Replied(r) = reply(500, Some("down")) {
        assert_eq!(
            cluster_status_refusal(&r).as_deref(),
            Some("cluster status 500 (content_type=application/json, body_preview=down)")
        );
    }
}

#[test]
fn previews_are_bounded() {
    assert_eq!(body_preview("  short "), "short");
    assert_eq!(body_preview(&"x".repeat(300)).chars().count(), 203);
    assert_eq!(body_preview_opt(None), "<disabled>");
}

// ---- Health and leadership ----

#[test]
fn readiness_waits_for_what_is_required() {
    let mut readiness = Readiness::new();
    assert_eq!(health_reply("/readyz", &readiness).status, 200);
    set_dependency_required(&mut readiness, true);
    assert_eq!(health_reply("/readyz", &readiness).status, 200);
    set_dependency_ready(&mut readiness, false);
    assert_eq!(health_reply("/readyz", &readiness).status, 503);
    assert_eq!(health_reply("/livez", &readiness).status, 200);
    set_dependency_ready(&mut readiness, true);
    assert_eq!(health_reply("/readyz", &readiness).status, 200);
    assert_eq!(health_reply("/nope", &readiness).status, 404);
    assert!(matches!(health_reply("/metrics", &readiness).body, HealthBody::Metrics));
}

#[test]
fn leadership_follows_the_lease() {
    let step = leader_step(LeaderState::new(), LeaseOutcome::Acquired, 30);
    assert_eq!(step.changed, Some(true));
    assert!(step.state.is_leader());
    assert!(step.wait_nanos < 30_000_000_000);
    let step = leader_step(step.state, LeaseOutcome::Failed, 30);
    assert_eq!(step.changed, None);
    assert_eq!(step.wait_nanos, 2_000_000_000);
    let step = leader_step(step.state, LeaseOutcome::NotAcquired, 30);
    assert_eq!(step.changed, Some(false));
    let mut state = LeaderState::new();
    assert_eq!(state.set(false), None);
}

// ---- Events of the network ----

#[test]
fn buffered_events_come_out_once_and_in_order() {
    let mut buffer = Some(EventBuffer::new());
    buffer.as_mut().unwrap().push("a".to_string(), 1_000);
    buffer.as_mut().unwrap().push("b".to_string(), 2_000);
    assert_eq!(snapshot_ndjson(&mut buffer, 3_000).trim_end(), "a\nb");
    assert_eq!(snapshot_ndjson(&mut None, 3_000), "");
}

#[test]
fn events_become_lines() {
    let event = KprobeEvent {
        function_name: "tcp_sendmsg".to_string(),
        args: vec![
            KprobeArgument::Sock(SockArgument {
                saddr: "10.0.0.1".to_string(),
                daddr: "10.0.0.2".to_string(),
                protocol: "IPPROTO_TCP".to_string(),
                dport: 443,
            }),
            KprobeArgument::Int(39),
        ],
        time: Some(EventTime { seconds: 5, nanos: 6_000_000 }),
    };
    assert!(event_time_fits(&event, 9));
    let line = event_line(&event, 9).expect("a line");
    assert!(!line.contains('\n'));
    let document: serde_json::Value = serde_json::from_str(&line).expect("a document");
    let call = &document["process_kprobe"];
    assert_eq!(call["function_name"], "tcp_sendmsg");
    assert_eq!(call["timestamp_unix_ms"], 5006);
    assert_eq!(call["args"][0]["sock_arg"]["saddr"], "10.0.0.1");
    assert_eq!(call["args"][0]["sock_arg"]["dport"], 443);
    assert_eq!(call["args"][1]["int_arg"], 39);
    assert_eq!(timestamp_ms(&EventTime { seconds: 1, nanos: 0 }), Some(1000));

    let found = parse_tetragon_record(&document, 1).expect("a record");
    assert_eq!((found.src_ip.as_str(), found.dst_ip.as_str()), ("10.0.0.1", "10.0.0.2"));
    assert_eq!((found.protocol.as_str(), found.destination_port), ("tcp", 443));
    assert_eq!((found.bytes, found.packets, found.connections), (39, 1, 0));
    assert_eq!(found.timestamp_unix_ms, 5006);

    let opened = KprobeEvent { function_name: "tcp_connect".to_string(), args: vec![], time: None };
    assert_eq!(event_line(&opened, 9), None);
    let far = EventTime { seconds: i64::MAX, nanos: 0 };
    let late = KprobeEvent { time: Some(far), ..event };
    assert!(!event_time_fits(&late, 9));
}

#[test]
fn a_line_keeps_what_an_event_holds() {
    let event = KprobeEvent {
        function_name: "tcp_close".to_string(),
        args: vec![KprobeArgument::Sock(SockArgument {
            saddr: "a\"b\\c/~\n\u{2028}\u{1}".to_string(),
            daddr: String::new(),
            protocol: " udp ".to_string(),
            dport: 65_537,
        })],
        time: None,
    };
    let line = event_line(&event, 7).expect("a line");
    assert!(!line.contains('\n') && line.starts_with('{') && line.ends_with('}'));
    let document: serde_json::Value = serde_json::from_str(&line).expect("a document");
    assert_eq!(document["process_kprobe"]["args"].as_array().map(|args| args.len()), Some(1));
    let found = parse_tetragon_record(&document, 1).expect("a record");
    assert_eq!(found.src_ip, "a\"b\\c/~\n\u{2028}\u{1}");
    assert_eq!((found.protocol.as_str(), found.destination_port), ("udp", 1));
    assert_eq!((found.connections, found.timestamp_unix_ms), (1, 7));
}

fn stream(key: &str, source: StreamSource, connected: bool) -> StreamEntry {
    StreamEntry { key: key.to_string(), source, connected }
}

#[test]
fn streams_are_counted_and_planned() {
    let mut table = StreamTable::new(true);
    assert!(!table.dependency_ready());
    table.register_stream(stream("a:1", StreamSource::Discovered, false));
    table.register_stream(stream("b:1", StreamSource::Discovered, false));
    assert!(table.set_stream_connected("a:1", true));
    assert!(!table.set_stream_connected("zzz", true));
    let coverage = table.coverage_snapshot();
    assert_eq!(
        (coverage.observed_endpoints, coverage.connected_endpoints, coverage.unavailable_endpoints),
        (2, 1, 1)
    );
    assert!(table.dependency_ready());
    let plan = plan_streams(&table, &vec!["b:1".to_string(), "c:1".to_string()]);
    assert_eq!(plan.stop, vec!["a:1"]);
    assert_eq!(plan.start, vec!["c:1"]);
    assert!(!plan.start_fallback);
    assert!(table.stream_exists("a:1"));
    assert!(table.remove_stream("a:1"));
    assert_eq!(coverage_snapshot(&None).observed_endpoints, 0);
    assert!(!fall_back_after_failure(&table, false));
}

#[test]
fn discovered_addresses_carry_the_port() {
    let slice = DiscoveredSlice {
        ports: vec![Some(54321)],
        endpoints: vec![DiscoveredEndpoint {
            ready: Some(true),
            target: None,
            addresses: vec![Some("10.0.0.9".to_string()), None],
        }],
    };
    assert_eq!(discover_addresses(&vec![slice], 54321), vec!["10.0.0.9:54321"]);
    assert_eq!(grpc_endpoint("10.0.0.9:54321"), "http://10.0.0.9:54321");
    assert!(already_exists_like("policy already exists"));
    let start = init_streams(&test_config(None));
    assert!(!start.start);
}
