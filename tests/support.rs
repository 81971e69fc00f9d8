use custom_edr::devices::{KeyboardDevice, KeyboardWatch};
use custom_edr::events::{Alert, AlertSeverity, BaseEvent, EventType, ProcessEvent};
use custom_edr::lifecycle::{
    command_from_lower, join_step, kernel_logger_active, outcome_message_of, parse_command, shutdown_order,
    signature_valid, start_action, Component, JoinOutcome, JoinStep, OperatorCommand, ShutdownLatch,
    StartAction,
};
use custom_edr::registry::{diff_snapshots, ChangeKind, RegKeySnapshot, RegValue};
use custom_edr::report::{
    count_severities, filter_alerts, in_timeline, parse_duration, DurationError,
};
use custom_edr::shared;

fn key(path: &str, values: &[(&str, &str)]) -> RegKeySnapshot {
    RegKeySnapshot {
        key_path: path.to_string(),
        values: values.iter().map(|(n, d)| RegValue { name: n.to_string(), data: d.to_string() }).collect(),
    }
}

#[test]
fn registry_diff_reports_created_modified_deleted() {
    let before = vec![key("HKCU\\Run", &[("a", "1"), ("b", "2"), ("c", "3")]), key("HKLM\\Gone", &[("x", "1")])];
    let after = vec![key("HKCU\\Run", &[("a", "1"), ("b", "20"), ("d", "4")]), key("HKLM\\New", &[("y", "1")])];
    let changes = diff_snapshots(&before, &after);
    let got: Vec<(String, String, ChangeKind)> =
        changes.iter().map(|c| (c.value_name.clone(), c.value_data.clone(), c.kind)).collect();
    assert_eq!(
        got,
        vec![
            ("b".to_string(), "20".to_string(), ChangeKind::Modified),
            ("d".to_string(), "4".to_string(), ChangeKind::Created),
            ("c".to_string(), "<deleted>".to_string(), ChangeKind::Deleted),
        ]
    );
    let ev = changes[2].to_event();
    assert_eq!(ev.event_type, "deleted");
    assert_eq!(ev.key_path, "HKCU\\Run");
    assert!(!ev.timestamp.is_empty());
    assert!(diff_snapshots(&before, &before).is_empty());
}

fn dev(id: &str, name: &str) -> KeyboardDevice {
    KeyboardDevice { instance_id: id.to_string(), friendly_name: name.to_string() }
}

#[test]
fn keyboards_present_at_start_never_alert() {
    let mut w = KeyboardWatch::new();
    w.prime(&vec!["HID\\KB1".to_string()]);
    assert!(w.observe(&vec![dev("HID\\KB1", "Built-in"), dev("HID\\KB2", "Dock")]).is_empty());
    let alerts = w.observe(&vec![dev("HID\\KB1", "Built-in"), dev("USB\\PICO", "Pico"), dev("USB\\PICO", "Pico")]);
    assert_eq!(alerts.len(), 1);
    assert_eq!(alerts[0].severity, "MEDIUM");
    assert_eq!(alerts[0].process, "USB\\PICO");
    assert_eq!(alerts[0].parent, "system");
    assert_eq!(alerts[0].details.as_deref(), Some("New keyboard: USB\\PICO - Pico"));
    assert!(w.observe(&vec![dev("USB\\PICO", "Pico")]).is_empty());
}

fn log_alert(sev: &str, rule: &str, time: &str) -> shared::Alert {
    shared::Alert {
        time: time.to_string(),
        severity: sev.to_string(),
        rule: rule.to_string(),
        process: "p".to_string(),
        parent: "q".to_string(),
        command_line: None,
        details: None,
    }
}

#[test]
fn report_filters_and_counts() {
    let alerts = vec![
        log_alert("HIGH", "a", "2024-05-01T10:00:00+00:00"),
        log_alert("LOW", "b", "2024-05-01T11:00:00+00:00"),
        log_alert("High", "c", "2024-05-01T12:00:00+00:00"),
        log_alert("HIGH", "d", "2024-05-01T13:00:00+00:00"),
        log_alert("MEDIUM", "e", "bad time"),
    ];
    let counts = count_severities(&alerts);
    assert_eq!((counts.total, counts.high, counts.medium, counts.low), (5, 2, 1, 1));
    let high: Vec<String> = filter_alerts(alerts.clone(), Some("high"), None).into_iter().map(|a| a.rule).collect();
    assert_eq!(high, vec!["a", "c", "d"]);
    let last2: Vec<String> = filter_alerts(alerts.clone(), Some("HIGH"), Some(2)).into_iter().map(|a| a.rule).collect();
    assert_eq!(last2, vec!["c", "d"]);
    assert_eq!(filter_alerts(alerts.clone(), None, Some(10)).len(), 5);
    assert_eq!(filter_alerts(alerts.clone(), None, Some(0)).len(), 0);
    let now = 1_714_564_800_000i64;
    assert!(in_timeline(&alerts[3], now, 3600));
    assert!(in_timeline(&alerts[1], now, 3600));
    assert!(!in_timeline(&alerts[0], now, 3600));
    assert!(!in_timeline(&alerts[4], now, 3600));
}

#[test]
fn durations_and_their_errors() {
    assert_eq!(parse_duration("24h"), Ok(86_400));
    assert_eq!(parse_duration(" 7d "), Ok(604_800));
    assert_eq!(parse_duration("30m"), Ok(1_800));
    assert_eq!(parse_duration("-2h"), Ok(-7_200));
    assert_eq!(parse_duration("   "), Err(DurationError::Empty));
    assert_eq!(parse_duration("h"), Err(DurationError::InvalidNumber));
    assert_eq!(parse_duration("xh"), Err(DurationError::InvalidNumber));
    assert_eq!(parse_duration("5w"), Err(DurationError::InvalidFormat));
    assert_eq!(parse_duration("9223372036854775807d"), Err(DurationError::OutOfRange));
}

#[test]
fn shutdown_sequence_and_steps() {
    assert_eq!(
        shutdown_order(),
        vec![Component::NetworkMonitor, Component::ProcessMonitor, Component::CorrelationEngine, Component::AlertHandler]
    );
    assert_eq!(join_step(0, 5_000, true), JoinStep::Join);
    assert_eq!(join_step(100, 5_000, false), JoinStep::Wait);
    assert_eq!(join_step(5_000, 5_000, true), JoinStep::GiveUp);
    assert_eq!(outcome_message_of(Component::AlertHandler, JoinOutcome::TimedOut), "Alert Handler didn't stop in time, continuing...");
    let mut latch = ShutdownLatch::new();
    assert!(latch.request());
    assert!(!latch.request());
    assert_eq!(start_action(0, true), StartAction::Run);
    assert_eq!(start_action(0, false), StartAction::RetryAfterDelay);
    assert_eq!(start_action(1, false), StartAction::GiveUp);
}

#[test]
fn operator_commands_and_tool_output() {
    assert_eq!(parse_command(" Quit \n"), OperatorCommand::Quit);
    assert_eq!(parse_command("STOP"), OperatorCommand::Quit);
    assert_eq!(parse_command("info"), OperatorCommand::Status);
    assert_eq!(parse_command("  "), OperatorCommand::Empty);
    assert_eq!(parse_command("reboot"), OperatorCommand::Unknown);
    assert_eq!(command_from_lower("exit"), OperatorCommand::Quit);
    assert!(kernel_logger_active("Data Collector Set\nNT Kernel Logger   Trace  Running"));
    assert!(!kernel_logger_active("nothing here"));
    assert!(signature_valid("Valid\r\n"));
    assert!(!signature_valid("NotSigned"));
}

#[test]
fn alert_text_and_event_identity() {
    let a = Alert::new_at(AlertSeverity::High, "R", "desc", "p.exe", 12, vec!["x".to_string()], 5);
    assert_eq!(a.severity_str(), "HIGH");
    assert_eq!(a.to_display_string(), "[HIGH] R - PID: 12 - desc - Evidence: [\"x\"]");
    let stamped = Alert::new(AlertSeverity::Low, "R", "d", "p", 1, vec![]);
    assert!(stamped.timestamp > 1_600_000_000_000);
    let e = BaseEvent::new(EventType::ProcessStart(ProcessEvent::new_start(1, 0, "a".to_string())));
    assert_eq!(e.event_id.len(), 36);
    assert!(!e.machine_name.is_empty());
    let other = BaseEvent::new(EventType::ProcessEnd(ProcessEvent::new_end(1, "a".to_string(), None)));
    assert_ne!(e.event_id, other.event_id);
    let s = shared::Alert::new("LOW", "rule", "proc", "parent");
    assert!(s.time.contains('T'));
    assert_eq!(s.rule, "rule");
}
