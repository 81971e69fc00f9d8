//! Normalized events consumed by the correlation engine, and its alerts.
use vstd::prelude::*;
use crate::clock::now_millis;
use crate::host::{host_name, new_event_id, user_name};
use crate::text::{decimal, decimal_text, join4};

verus! {

/// How serious an alert is.
#[derive(Debug, Clone, Copy, PartialEq, Eq, Structural)]
pub enum AlertSeverity {
    Low,
    Medium,
    High,
    Critical,
}

/// An alert raised by the correlation engine. `timestamp` is in milliseconds
/// since the Unix epoch.
#[derive(Debug, Clone)]
pub struct Alert {
    pub severity: AlertSeverity,
    pub rule_name: String,
    pub description: String,
    pub process_name: String,
    pub pid: u32,
    pub evidence: Vec<String>,
    pub timestamp: i64,
}

/// The contents of an alert, as values.
pub struct AlertModel {
    pub severity: AlertSeverity,
    pub rule_name: Seq<char>,
    pub description: Seq<char>,
    pub process_name: Seq<char>,
    pub pid: u32,
    pub evidence: Seq<Seq<char>>,
    pub timestamp: i64,
}

/// The characters of each text of `v`.
pub open spec fn texts(v: Seq<String>) -> Seq<Seq<char>> {
    v.map_values(|s: String| s@)
}

impl View for Alert {
    type V = AlertModel;

    open spec fn view(&self) -> AlertModel {
        AlertModel {
            severity: self.severity,
            rule_name: self.rule_name@,
            description: self.description@,
            process_name: self.process_name@,
            pid: self.pid,
            evidence: texts(self.evidence@),
            timestamp: self.timestamp,
        }
    }
}

/// The upper-case name of a severity.
pub open spec fn severity_name(s: AlertSeverity) -> Seq<char> {
    match s {
        AlertSeverity::Low => "LOW"@,
        AlertSeverity::Medium => "MEDIUM"@,
        AlertSeverity::High => "HIGH"@,
        AlertSeverity::Critical => "CRITICAL"@,
    }
}

impl Alert {
    /// An alert stamped with the current time.
    pub fn new(
        severity: AlertSeverity,
        rule_name: &str,
        description: &str,
        process_name: &str,
        pid: u32,
        evidence: Vec<String>,
    ) -> (r: Self)
        ensures
            r@ == (AlertModel {
                severity,
                rule_name: rule_name@,
                description: description@,
                process_name: process_name@,
                pid,
                evidence: texts(evidence@),
                timestamp: r.timestamp,
            }),
    {
        let now = now_millis();
        Alert::new_at(severity, rule_name, description, process_name, pid, evidence, now)
    }

    /// An alert stamped with `timestamp`.
    pub fn new_at(
        severity: AlertSeverity,
        rule_name: &str,
        description: &str,
        process_name: &str,
        pid: u32,
        evidence: Vec<String>,
        timestamp: i64,
    ) -> (r: Self)
        ensures
            r@ == (AlertModel {
                severity,
                rule_name: rule_name@,
                description: description@,
                process_name: process_name@,
                pid,
                evidence: texts(evidence@),
                timestamp,
            }),
    {
        Alert {
            severity,
            rule_name: rule_name.to_owned(),
            description: description.to_owned(),
            process_name: process_name.to_owned(),
            pid,
            evidence,
            timestamp,
        }
    }

    /// The upper-case name of the alert's severity.
    pub fn severity_str(&self) -> (r: &'static str)
        ensures
            r@ == severity_name(self.severity),
    {
        match self.severity {
            AlertSeverity::Low => "LOW",
            AlertSeverity::Medium => "MEDIUM",
            AlertSeverity::High => "HIGH",
            AlertSeverity::Critical => "CRITICAL",
        }
    }
}

/// What `{:?}` writes for a list of texts.
pub uninterp spec fn debug_list_of(v: Seq<Seq<char>>) -> Seq<char>;

/// Relies on the `Debug` format of `Vec<String>`: the bracketed, quoted list,
/// which depends on the texts alone.
#[verifier::external_body]
fn debug_list(v: &Vec<String>) -> (r: String)
    ensures
        r@ == debug_list_of(texts(v@)),
{
    format!("{:?}", v)
}

/// The one-line operator text of an alert.
pub open spec fn alert_line(a: AlertModel) -> Seq<char> {
    "["@ + severity_name(a.severity) + "] "@ + a.rule_name + " - PID: "@ + decimal(a.pid as nat) + " - "@
        + a.description + " - Evidence: "@ + debug_list_of(a.evidence)
}

impl Alert {
    /// The one-line operator text of the alert:
    /// `[SEVERITY] rule - PID: pid - description - Evidence: [..]`.
    pub fn to_display_string(&self) -> (r: String)
        ensures
            r@ == alert_line(self@),
    {
        let pid = decimal_text(self.pid as u64);
        let evidence = debug_list(&self.evidence);
        let mut s = join4("[", self.severity_str(), "] ", self.rule_name.as_str());
        s.append(" - PID: ");
        s.append(pid.as_str());
        s.append(" - ");
        s.append(self.description.as_str());
        s.append(" - Evidence: ");
        s.append(evidence.as_str());
        s
    }
}

/// Direction of a connection relative to the monitored host.
#[derive(Debug, Clone, PartialEq, Eq)]
pub enum NetworkDirection {
    Inbound,
    Outbound,
    Listening,
}

/// Transport protocol of a connection.
#[derive(Debug, Clone, PartialEq, Eq)]
pub enum Protocol {
    TCP,
    UDP,
    Other(String),
}

/// State of a connection.
#[derive(Debug, Clone, PartialEq, Eq)]
pub enum ConnectionState {
    Established,
    Listening,
    Closed,
    TimeWait,
    Other(String),
}

/// A newly observed network connection.
#[derive(Debug, Clone)]
pub struct NetworkEvent {
    pub pid: u32,
    pub process_name: String,
    pub direction: NetworkDirection,
    pub protocol: Protocol,
    pub local_address: String,
    pub local_port: u16,
    pub remote_address: String,
    pub remote_port: u16,
    pub bytes_sent: u64,
    pub bytes_received: u64,
    pub connection_state: ConnectionState,
}

impl NetworkEvent {
    /// An established connection with no bytes counted yet.
    pub fn new(
        pid: u32,
        process_name: String,
        direction: NetworkDirection,
        protocol: Protocol,
        local_address: String,
        local_port: u16,
        remote_address: String,
        remote_port: u16,
    ) -> (r: Self)
        ensures
            r.pid == pid,
            r.process_name == process_name,
            r.direction == direction,
            r.protocol == protocol,
            r.local_address == local_address,
            r.local_port == local_port,
            r.remote_address == remote_address,
            r.remote_port == remote_port,
            r.bytes_sent == 0,
            r.bytes_received == 0,
            r.connection_state == ConnectionState::Established,
    {
        NetworkEvent {
            pid,
            process_name,
            direction,
            protocol,
            local_address,
            local_port,
            remote_address,
            remote_port,
            bytes_sent: 0,
            bytes_received: 0,
            connection_state: ConnectionState::Established,
        }
    }
}

/// A Windows file time: 100-nanosecond intervals since 1601, in two halves.
#[derive(Debug, Clone, Copy, PartialEq, Eq)]
pub struct FileTime {
    pub low_date_time: u32,
    pub high_date_time: u32,
}

/// A process that started or ended.
#[derive(Debug, Clone)]
pub struct ProcessEvent {
    pub pid: u32,
    pub parent_pid: u32,
    pub process_name: String,
    pub image_path: String,
    pub command_line: String,
    pub session_id: u32,
    pub integrity_level: String,
    pub create_time: Option<FileTime>,
    pub exit_time: Option<FileTime>,
    pub exit_code: Option<u32>,
}

/// `e` holds no path, command line, session or times, and an unknown integrity level.
pub open spec fn bare_process_event(e: ProcessEvent) -> bool {
    &&& e.image_path@ == Seq::<char>::empty()
    &&& e.command_line@ == Seq::<char>::empty()
    &&& e.session_id == 0
    &&& e.integrity_level@ == "Unknown"@
    &&& e.create_time is None
    &&& e.exit_time is None
}

impl ProcessEvent {
    /// The start of process `pid`.
    pub fn new_start(pid: u32, parent_pid: u32, process_name: String) -> (r: Self)
        ensures
            r.pid == pid,
            r.parent_pid == parent_pid,
            r.process_name == process_name,
            bare_process_event(r),
            r.exit_code is None,
    {
        ProcessEvent {
            pid,
            parent_pid,
            process_name,
            image_path: String::new(),
            command_line: String::new(),
            session_id: 0,
            integrity_level: "Unknown".to_owned(),
            create_time: None,
            exit_time: None,
            exit_code: None,
        }
    }

    /// The end of process `pid`.
    pub fn new_end(pid: u32, process_name: String, exit_code: Option<u32>) -> (r: Self)
        ensures
            r.pid == pid,
            r.parent_pid == 0,
            r.process_name == process_name,
            bare_process_event(r),
            r.exit_code == exit_code,
    {
        ProcessEvent {
            pid,
            parent_pid: 0,
            process_name,
            image_path: String::new(),
            command_line: String::new(),
            session_id: 0,
            integrity_level: "Unknown".to_owned(),
            create_time: None,
            exit_time: None,
            exit_code,
        }
    }
}

/// What an event reports.
#[derive(Debug, Clone)]
pub enum EventType {
    ProcessStart(ProcessEvent),
    ProcessEnd(ProcessEvent),
    NetworkConnection(NetworkEvent),
    Alert(Alert),
}

/// An event with its time, identifier and origin.
#[derive(Debug, Clone)]
pub struct BaseEvent {
    pub timestamp: i64,
    pub event_id: String,
    pub machine_name: String,
    pub user_name: String,
    pub event_type: EventType,
}

impl BaseEvent {
    /// An event stamped with the current time, a fresh identifier and the
    /// host and user names (`unknown` where the system gives none).
    pub fn new(event_type: EventType) -> (r: Self)
        ensures
            r.event_type == event_type,
            r.event_id@.len() == 36,
    {
        let timestamp = now_millis();
        let event_id = new_event_id();
        let machine_name = match host_name() {
            Some(n) => n,
            None => "unknown".to_owned(),
        };
        let user_name = match user_name() {
            Some(n) => n,
            None => "unknown".to_owned(),
        };
        BaseEvent { timestamp, event_id, machine_name, user_name, event_type }
    }
}

} // verus!
