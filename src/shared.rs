//! Records exchanged between the sensor's collectors, its rules and the
//! alert log.
use vstd::prelude::*;
use crate::clock::now_rfc3339;

verus! {

/// A process observed running.
#[derive(Debug, Clone)]
pub struct ProcessEvent {
    pub timestamp: String,
    pub pid: u32,
    pub parent_pid: u32,
    pub image: String,
    pub parent_image: String,
    pub command_line: String,
    pub is_signed: bool,
}

/// A newly observed network connection.
#[derive(Debug, Clone)]
pub struct NetworkEvent {
    pub timestamp: String,
    pub pid: u32,
    pub protocol: String,
    pub local_addr: String,
    pub remote_addr: String,
    pub remote_port: u16,
}

/// A change to a monitored registry value; `event_type` is one of
/// `created`, `modified` or `deleted`.
#[derive(Debug, Clone)]
pub struct RegistryEvent {
    pub timestamp: String,
    pub key_path: String,
    pub value_name: String,
    pub value_data: String,
    pub event_type: String,
}

/// One record of the alert log.
#[derive(Debug, Clone)]
pub struct Alert {
    pub time: String,
    pub severity: String,
    pub rule: String,
    pub process: String,
    pub parent: String,
    pub command_line: Option<String>,
    pub details: Option<String>,
}

/// The characters of an optional text.
pub open spec fn opt_text(o: Option<String>) -> Option<Seq<char>> {
    match o {
        Some(s) => Some(s@),
        None => None,
    }
}

/// `a` carries the given severity, rule, process and parent.
pub open spec fn alert_header(
    a: Alert,
    severity: Seq<char>,
    rule: Seq<char>,
    process: Seq<char>,
    parent: Seq<char>,
) -> bool {
    &&& a.severity@ == severity
    &&& a.rule@ == rule
    &&& a.process@ == process
    &&& a.parent@ == parent
}

impl Alert {
    /// An alert stamped with the current local time, without command line or
    /// details.
    pub fn new(severity: &str, rule: &str, process: &str, parent: &str) -> (r: Self)
        ensures
            alert_header(r, severity@, rule@, process@, parent@),
            r.command_line is None,
            r.details is None,
    {
        let time = now_rfc3339();
        Alert::new_at(time, severity, rule, process, parent)
    }

    /// An alert stamped with `time`, without command line or details.
    pub fn new_at(time: String, severity: &str, rule: &str, process: &str, parent: &str) -> (r: Self)
        ensures
            r.time@ == time@,
            alert_header(r, severity@, rule@, process@, parent@),
            r.command_line is None,
            r.details is None,
    {
        Alert {
            time,
            severity: severity.to_owned(),
            rule: rule.to_owned(),
            process: process.to_owned(),
            parent: parent.to_owned(),
            command_line: None,
            details: None,
        }
    }
}

} // verus!
