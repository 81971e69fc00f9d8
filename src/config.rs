//! Tunable detection settings.
use vstd::prelude::*;
use crate::events::texts;

verus! {

/// Patterns and thresholds used by the correlation engine.
#[derive(Debug)]
pub struct Config {
    pub suspicious_process_patterns: Vec<String>,
    pub suspicious_network_patterns: Vec<String>,
    pub alert_thresholds: AlertThresholds,
    pub correlation_rules: Vec<CorrelationRule>,
}

#[derive(Debug)]
pub struct AlertThresholds {
    pub max_connections_per_minute: usize,
    pub max_processes_per_minute: usize,
    pub suspicious_port_range: (u16, u16),
}

/// A declarative correlation rule: all its conditions must hold.
#[derive(Debug, Clone)]
pub struct CorrelationRule {
    pub name: String,
    pub description: String,
    pub severity: String,
    pub conditions: Vec<Condition>,
}

/// One comparison of a context field against a value.
#[derive(Debug, Clone)]
pub struct Condition {
    pub field: String,
    pub operator: String,
    pub value: String,
}

fn condition(field: &str, operator: &str, value: &str) -> (r: Condition)
    ensures
        r.field@ == field@,
        r.operator@ == operator@,
        r.value@ == value@,
{
    Condition { field: field.to_owned(), operator: operator.to_owned(), value: value.to_owned() }
}

fn two_texts(a: &str, b: &str) -> (r: Vec<String>)
    ensures
        texts(r@) == seq![a@, b@],
{
    let mut v: Vec<String> = Vec::new();
    v.push(a.to_owned());
    v.push(b.to_owned());
    assert(texts(v@) =~= seq![a@, b@]);
    v
}

impl Default for Config {
    /// Script and shell names for processes, anonymizer names and bare
    /// address-with-high-port forms for destinations, and the rule that a
    /// process under five seconds old making connections is noteworthy.
    fn default() -> (r: Self)
        ensures
            texts(r.suspicious_process_patterns@) == seq![
                "(?i).*\\.(ps1|vbs|js|hta|bat|cmd)$"@,
                "(?i).*(powershell|cmd|wscript|cscript|mshta).*"@,
            ],
            texts(r.suspicious_network_patterns@) == seq![
                "(?i).*(tor|proxy|vpn).*"@,
                "\\d+\\.\\d+\\.\\d+\\.\\d+:\\d{4,5}"@,
            ],
            r.alert_thresholds.max_connections_per_minute == 100,
            r.alert_thresholds.max_processes_per_minute == 50,
            r.alert_thresholds.suspicious_port_range == (49152u16, 65535u16),
            r.correlation_rules@.len() == 1,
            r.correlation_rules@[0].name@ == "NewProcessNetworkActivity"@,
            r.correlation_rules@[0].severity@ == "Medium"@,
            r.correlation_rules@[0].conditions@.len() == 2,
            r.correlation_rules@[0].conditions@[0].field@ == "process_age"@,
            r.correlation_rules@[0].conditions@[0].operator@ == "<"@,
            r.correlation_rules@[0].conditions@[0].value@ == "5"@,
            r.correlation_rules@[0].conditions@[1].field@ == "network_connections"@,
            r.correlation_rules@[0].conditions@[1].operator@ == ">"@,
            r.correlation_rules@[0].conditions@[1].value@ == "0"@,
    {
        let mut conditions: Vec<Condition> = Vec::new();
        conditions.push(condition("process_age", "<", "5"));
        conditions.push(condition("network_connections", ">", "0"));
        let mut correlation_rules: Vec<CorrelationRule> = Vec::new();
        correlation_rules.push(
            CorrelationRule {
                name: "NewProcessNetworkActivity".to_owned(),
                description: "New process making network connections within 5 seconds".to_owned(),
                severity: "Medium".to_owned(),
                conditions,
            },
        );
        Config {
            suspicious_process_patterns: two_texts(
                "(?i).*\\.(ps1|vbs|js|hta|bat|cmd)$",
                "(?i).*(powershell|cmd|wscript|cscript|mshta).*",
            ),
            suspicious_network_patterns: two_texts(
                "(?i).*(tor|proxy|vpn).*",
                "\\d+\\.\\d+\\.\\d+\\.\\d+:\\d{4,5}",
            ),
            alert_thresholds: AlertThresholds {
                max_connections_per_minute: 100,
                max_processes_per_minute: 50,
                suspicious_port_range: (49152, 65535),
            },
            correlation_rules,
        }
    }
}

} // verus!
