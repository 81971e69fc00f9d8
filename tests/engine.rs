use custom_edr::config::{Config, CorrelationRule};
use custom_edr::correlation::{
    cleanup_old_contexts, is_suspicious_destination, is_suspicious_process, process_event, ContextTable,
};
use custom_edr::dedup::AlertLedger;
use custom_edr::events::{
    AlertSeverity, BaseEvent, EventType, NetworkDirection, NetworkEvent, ProcessEvent, Protocol,
};

fn start_event(pid: u32, name: &str) -> BaseEvent {
    BaseEvent {
        timestamp: 0,
        event_id: "e".to_string(),
        machine_name: "m".to_string(),
        user_name: "u".to_string(),
        event_type: EventType::ProcessStart(ProcessEvent::new_start(pid, 1, name.to_string())),
    }
}

fn conn_event(pid: u32, remote: &str) -> BaseEvent {
    let n = NetworkEvent::new(
        pid,
        "x".to_string(),
        NetworkDirection::Outbound,
        Protocol::TCP,
        "10.0.0.2".to_string(),
        50000,
        remote.to_string(),
        443,
    );
    BaseEvent {
        timestamp: 0,
        event_id: "e".to_string(),
        machine_name: "m".to_string(),
        user_name: "u".to_string(),
        event_type: EventType::NetworkConnection(n),
    }
}

const T0: i64 = 1_714_557_600_000;

#[test]
fn rapid_connections_fire_once_for_six_in_ten_seconds() {
    let config = Config::default();
    let mut table = ContextTable::new();
    process_event(&start_event(77, "notepad.exe"), &mut table, &config, T0 - 60_000);
    let mut rapid = 0;
    for k in 0..9 {
        let alerts = process_event(&conn_event(77, "192.168.1.5"), &mut table, &config, T0 + k * 1_000);
        rapid += alerts.iter().filter(|a| a.rule_name == "RapidNetworkConnections").count();
        if k == 5 {
            let a = alerts.iter().find(|a| a.rule_name == "RapidNetworkConnections").unwrap();
            assert_eq!(a.severity, AlertSeverity::Medium);
            assert_eq!(a.evidence, vec!["6 connections in 10 seconds".to_string()]);
        }
    }
    assert_eq!(rapid, 1);
    assert_eq!(table.get(77).unwrap().fired_rules, vec!["RapidNetworkConnections".to_string()]);
}

#[test]
fn stateful_rules_do_not_fire_twice_for_one_context() {
    let config = Config::default();
    let mut table = ContextTable::new();
    process_event(&start_event(80, "notepad.exe"), &mut table, &config, T0);
    let first = process_event(&conn_event(80, "evil-domain.net"), &mut table, &config, T0 + 1_000);
    let names: Vec<&str> = first.iter().map(|a| a.rule_name.as_str()).collect();
    assert_eq!(names, vec!["SuspiciousNetworkConnection", "NewProcessNetworkActivity"]);
    let second = process_event(&conn_event(80, "evil-domain.net"), &mut table, &config, T0 + 2_000);
    assert!(second.is_empty());
    process_event(&start_event(80, "notepad.exe"), &mut table, &config, T0 + 3_000);
    let again = process_event(&conn_event(80, "evil-domain.net"), &mut table, &config, T0 + 4_000);
    assert_eq!(again.len(), 2);
}

#[test]
fn new_process_activity_for_two_second_old_context() {
    let config = Config::default();
    let mut table = ContextTable::new();
    process_event(&start_event(78, "notepad.exe"), &mut table, &config, T0);
    let alerts = process_event(&conn_event(78, "8.8.8.8"), &mut table, &config, T0 + 2_000);
    let a = alerts.iter().find(|a| a.rule_name == "NewProcessNetworkActivity").unwrap();
    assert_eq!(a.evidence, vec!["Process age: 2 seconds".to_string(), "Connections made: 1".to_string()]);
    assert_eq!(a.pid, 78);
    assert_eq!(a.timestamp, T0 + 2_000);
}

#[test]
fn private_destination_never_suspicious() {
    let mut config = Config::default();
    config.suspicious_network_patterns.push(".*".to_string());
    config.suspicious_network_patterns.push("192".to_string());
    assert!(!is_suspicious_destination("192.168.1.5", &config));
    assert!(!is_suspicious_destination("[::1]", &config));
    assert!(!is_suspicious_destination("172.20.1.1", &config));
    assert!(is_suspicious_destination("8.8.8.8", &config));
    assert!(is_suspicious_destination("evil-domain.net", &Config::default()));
    assert!(!is_suspicious_destination("example.org", &Config::default()));
}

#[test]
fn connection_without_context_is_dropped() {
    let config = Config::default();
    let mut table = ContextTable::new();
    let alerts = process_event(&conn_event(99, "evil-domain.net"), &mut table, &config, T0);
    assert!(alerts.is_empty());
    assert_eq!(table.len(), 0);
}

#[test]
fn no_stateful_alert_without_connections() {
    let config = Config::default();
    let mut table = ContextTable::new();
    let alerts = process_event(&start_event(5, "powershell.exe"), &mut table, &config, T0);
    assert_eq!(alerts.len(), 1);
    assert_eq!(alerts[0].rule_name, "SuspiciousProcessStart");
    assert_eq!(alerts[0].description, "Suspicious process started: powershell.exe");
    assert_eq!(table.get(5).unwrap().network_connections.len(), 0);
}

#[test]
fn process_end_removes_context() {
    let config = Config::default();
    let mut table = ContextTable::new();
    process_event(&start_event(6, "a.exe"), &mut table, &config, T0);
    let end = BaseEvent {
        timestamp: 0,
        event_id: "e".to_string(),
        machine_name: "m".to_string(),
        user_name: "u".to_string(),
        event_type: EventType::ProcessEnd(ProcessEvent::new_end(6, "a.exe".to_string(), Some(0))),
    };
    process_event(&end, &mut table, &config, T0);
    assert!(table.get(6).is_none());
    process_event(&end, &mut table, &config, T0);
    assert_eq!(table.len(), 0);
}

#[test]
fn pid_reuse_replaces_context() {
    let config = Config::default();
    let mut table = ContextTable::new();
    process_event(&start_event(7, "a.exe"), &mut table, &config, T0);
    process_event(&conn_event(7, "10.1.1.1"), &mut table, &config, T0 + 1);
    process_event(&start_event(7, "b.exe"), &mut table, &config, T0 + 2);
    assert_eq!(table.len(), 1);
    let c = table.get(7).unwrap();
    assert_eq!(c.process_name, "b.exe");
    assert_eq!(c.start_time, T0 + 2);
    assert!(c.network_connections.is_empty());
}

#[test]
fn purge_drops_eleven_minute_old_active_context() {
    let config = Config::default();
    let mut table = ContextTable::new();
    let now = T0 + 11 * 60_000;
    process_event(&start_event(8, "old.exe"), &mut table, &config, T0);
    process_event(&start_event(9, "young.exe"), &mut table, &config, now - 1_000);
    process_event(&conn_event(8, "10.1.1.1"), &mut table, &config, now - 10);
    cleanup_old_contexts(&mut table, now);
    assert!(table.get(8).is_none());
    assert!(table.get(9).is_some());
    let mut exact = ContextTable::new();
    process_event(&start_event(10, "edge.exe"), &mut exact, &config, T0);
    cleanup_old_contexts(&mut exact, T0 + 600_000);
    assert!(exact.get(10).is_some());
}

#[test]
fn suspicious_process_names() {
    let config = Config::default();
    assert!(is_suspicious_process("CMD.EXE", &config));
    assert!(is_suspicious_process("evil.ps1", &config));
    assert!(!is_suspicious_process("svchost.exe", &config));
    assert!(!is_suspicious_process("notepad.exe", &config));
    let mut broken = Config::default();
    broken.suspicious_process_patterns = vec!["(".to_string()];
    assert!(!is_suspicious_process("notepad.exe", &broken));
}

#[test]
fn ledger_persists_each_key_once() {
    let mut ledger = AlertLedger::new();
    assert!(ledger.record(77, "RapidNetworkConnections"));
    assert!(!ledger.record(77, "RapidNetworkConnections"));
    assert!(ledger.record(78, "RapidNetworkConnections"));
    assert!(ledger.record(77, "NewProcessNetworkActivity"));
    assert!(ledger.contains(77, "RapidNetworkConnections"));
    assert!(!ledger.contains(79, "RapidNetworkConnections"));
}

#[test]
fn default_config_values() {
    let c = Config::default();
    assert_eq!(c.suspicious_process_patterns.len(), 2);
    assert_eq!(c.alert_thresholds.max_connections_per_minute, 100);
    assert_eq!(c.alert_thresholds.suspicious_port_range, (49152, 65535));
    let r: &CorrelationRule = &c.correlation_rules[0];
    assert_eq!(r.name, "NewProcessNetworkActivity");
    assert_eq!(r.conditions[1].operator, ">");
}
