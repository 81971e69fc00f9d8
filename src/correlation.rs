//! The correlation engine: per-process behavioral context and the stateful
//! network rules evaluated against it.
use vstd::prelude::*;
use crate::config::Config;
use crate::events::{Alert, AlertModel, AlertSeverity, EventType, NetworkEvent, ProcessEvent, texts};
use crate::netaddr::{is_private_or_local, private_or_local};
use crate::text::{
    any_contained, any_hit, chars_of, decimal, decimal_text, join2, lower_of, lowercase,
    same_text, signed_decimal, signed_decimal_text,
};

verus! {

/// Connections inside this trailing window count as recent.
pub const RAPID_WINDOW_MS: i64 = 10_000;

/// More than this many connections, all recent, make a burst.
pub const RAPID_THRESHOLD: usize = 5;

/// A context younger than this is a new process.
pub const NEW_PROCESS_MS: i64 = 5_000;

/// Contexts older than this are purged by the maintenance sweep.
pub const CONTEXT_LIFETIME_MS: i64 = 600_000;

/// What the engine remembers of one process. Times are milliseconds since the
/// Unix epoch.
#[derive(Debug)]
pub struct ProcessContext {
    pub start_time: i64,
    pub process_name: String,
    pub pid: u32,
    pub network_connections: Vec<i64>,
    /// Names of the stateful rules that already fired for this process; each
    /// fires at most once per context.
    pub fired_rules: Vec<String>,
}

pub struct ContextModel {
    pub start_time: i64,
    pub process_name: Seq<char>,
    pub pid: u32,
    pub network_connections: Seq<i64>,
    pub fired_rules: Seq<Seq<char>>,
}

impl View for ProcessContext {
    type V = ContextModel;

    open spec fn view(&self) -> ContextModel {
        ContextModel {
            start_time: self.start_time,
            process_name: self.process_name@,
            pid: self.pid,
            network_connections: self.network_connections@,
            fired_rules: texts(self.fired_rules@),
        }
    }
}

/// The engine's contexts, at most one per pid, in order of creation.
#[derive(Debug)]
pub struct ContextTable {
    pub contexts: Vec<ProcessContext>,
}

pub open spec fn models(v: Seq<ProcessContext>) -> Seq<ContextModel> {
    v.map_values(|c: ProcessContext| c@)
}

impl View for ContextTable {
    type V = Seq<ContextModel>;

    open spec fn view(&self) -> Seq<ContextModel> {
        models(self.contexts@)
    }
}

/// No two contexts share a pid.
pub open spec fn unique_pids(s: Seq<ContextModel>) -> bool {
    forall|i: int, j: int| 0 <= i < s.len() && 0 <= j < s.len() && i != j ==> s[i].pid != s[j].pid
}

pub open spec fn has_pid(s: Seq<ContextModel>, pid: u32) -> bool {
    exists|i: int| 0 <= i < s.len() && s[i].pid == pid
}

/// The position of the context of `pid`.
pub open spec fn slot(s: Seq<ContextModel>, pid: u32) -> int {
    choose|i: int| 0 <= i < s.len() && s[i].pid == pid
}

pub open spec fn context_of(s: Seq<ContextModel>, pid: u32) -> ContextModel {
    s[slot(s, pid)]
}

/// The context that a process start creates at `now`.
pub open spec fn fresh_context(p: ProcessEvent, now: i64) -> ContextModel {
    ContextModel {
        start_time: now,
        process_name: p.process_name@,
        pid: p.pid,
        network_connections: Seq::empty(),
        fired_rules: Seq::empty(),
    }
}

/// `c` with one more connection, recorded at `now`.
pub open spec fn with_connection(c: ContextModel, now: i64) -> ContextModel {
    ContextModel {
        start_time: c.start_time,
        process_name: c.process_name,
        pid: c.pid,
        network_connections: c.network_connections.push(now),
        fired_rules: c.fired_rules,
    }
}

/// Name of the burst-of-connections rule.
pub open spec fn rapid_rule() -> Seq<char> {
    "RapidNetworkConnections"@
}

/// Name of the suspicious-destination rule.
pub open spec fn destination_rule() -> Seq<char> {
    "SuspiciousNetworkConnection"@
}

/// Name of the new-process rule.
pub open spec fn young_rule() -> Seq<char> {
    "NewProcessNetworkActivity"@
}

/// The rule `name` already fired for the context.
pub open spec fn fired(c: ContextModel, name: Seq<char>) -> bool {
    c.fired_rules.contains(name)
}

/// The burst rule fires for `c`, just after it recorded a connection.
pub open spec fn rapid_fires(c: ContextModel, now: i64) -> bool {
    rapid(c, now) && !fired(c, rapid_rule())
}

/// The destination rule fires for `c` and the connection `n`.
pub open spec fn destination_fires(c: ContextModel, n: NetworkEvent, config: Config) -> bool {
    suspicious_destination(n.remote_address@, config) && !fired(c, destination_rule())
}

/// The new-process rule fires for `c`, just after it recorded a connection.
pub open spec fn young_fires(c: ContextModel, now: i64) -> bool {
    young(c, now) && !fired(c, young_rule())
}

/// The names of the stateful rules that fire, in order, for `c` just after
/// it recorded the connection `n`.
pub open spec fn fired_now(c: ContextModel, n: NetworkEvent, config: Config, now: i64) -> Seq<Seq<char>> {
    (if rapid_fires(c, now) {
        seq![rapid_rule()]
    } else {
        seq![]
    }) + (if destination_fires(c, n, config) {
        seq![destination_rule()]
    } else {
        seq![]
    }) + (if young_fires(c, now) {
        seq![young_rule()]
    } else {
        seq![]
    })
}

/// `c0` once it has recorded the connection `n` at `now` and marked the rules
/// that fired.
pub open spec fn after_connection(c0: ContextModel, n: NetworkEvent, config: Config, now: i64) -> ContextModel {
    let c = with_connection(c0, now);
    ContextModel {
        start_time: c.start_time,
        process_name: c.process_name,
        pid: c.pid,
        network_connections: c.network_connections,
        fired_rules: c.fired_rules + fired_now(c, n, config, now),
    }
}

/// The contexts after a process start at `now`.
pub open spec fn started(s: Seq<ContextModel>, p: ProcessEvent, now: i64) -> Seq<ContextModel> {
    if has_pid(s, p.pid) {
        s.update(slot(s, p.pid), fresh_context(p, now))
    } else {
        s.push(fresh_context(p, now))
    }
}

/// The contexts after the engine has taken in `e` at `now`.
pub open spec fn next_contexts(s: Seq<ContextModel>, e: EventType, config: Config, now: i64) -> Seq<ContextModel> {
    match e {
        EventType::ProcessStart(p) => started(s, p, now),
        EventType::ProcessEnd(p) => if has_pid(s, p.pid) {
            s.remove(slot(s, p.pid))
        } else {
            s
        },
        EventType::NetworkConnection(n) => if has_pid(s, n.pid) {
            s.update(slot(s, n.pid), after_connection(context_of(s, n.pid), n, config, now))
        } else {
            s
        },
        EventType::Alert(_) => s,
    }
}

/// How many of `times` fall inside the trailing window that ends at `now`.
pub open spec fn recent_count(times: Seq<i64>, now: i64) -> nat
    decreases times.len(),
{
    if times.len() == 0 {
        0
    } else {
        recent_count(times.drop_last(), now) + if times.last() > now - RAPID_WINDOW_MS {
            1nat
        } else {
            0nat
        }
    }
}

/// `x / d` rounded toward zero, as a duration's whole seconds are counted.
pub open spec fn trunc_div(x: int, d: int) -> int {
    if x >= 0 {
        x / d
    } else {
        -((-x) / d)
    }
}

/// Process names that are never reported at start.
pub open spec fn system_processes() -> Seq<&'static str> {
    seq![
        "svchost.exe",
        "system",
        "system idle process",
        "csrss.exe",
        "wininit.exe",
        "services.exe",
        "lsass.exe",
        "winlogon.exe",
        "explorer.exe",
        "dwm.exe",
        "taskhostw.exe",
        "runtimebroker.exe",
    ]
}

fn system_process_list() -> (r: Vec<&'static str>)
    ensures
        r@ == system_processes(),
{
    let mut v: Vec<&'static str> = Vec::new();
    v.push("svchost.exe");
    v.push("system");
    v.push("system idle process");
    v.push("csrss.exe");
    v.push("wininit.exe");
    v.push("services.exe");
    v.push("lsass.exe");
    v.push("winlogon.exe");
    v.push("explorer.exe");
    v.push("dwm.exe");
    v.push("taskhostw.exe");
    v.push("runtimebroker.exe");
    assert(v@ =~= system_processes());
    v
}

/// Script hosts and living-off-the-land binaries reported at start.
pub open spec fn suspicious_names() -> Seq<&'static str> {
    seq![
        "powershell.exe",
        "cmd.exe",
        "wscript.exe",
        "cscript.exe",
        "mshta.exe",
        "rundll32.exe",
        "regsvr32.exe",
        "certutil.exe",
    ]
}

fn suspicious_name_list() -> (r: Vec<&'static str>)
    ensures
        r@ == suspicious_names(),
{
    let mut v: Vec<&'static str> = Vec::new();
    v.push("powershell.exe");
    v.push("cmd.exe");
    v.push("wscript.exe");
    v.push("cscript.exe");
    v.push("mshta.exe");
    v.push("rundll32.exe");
    v.push("regsvr32.exe");
    v.push("certutil.exe");
    assert(v@ =~= suspicious_names());
    v
}

/// Known-bad domains.
pub open spec fn blocked_domains() -> Seq<&'static str> {
    seq!["malicious.com", "evil-domain.net"]
}

fn blocked_domain_list() -> (r: Vec<&'static str>)
    ensures
        r@ == blocked_domains(),
{
    let mut v: Vec<&'static str> = Vec::new();
    v.push("malicious.com");
    v.push("evil-domain.net");
    assert(v@ =~= blocked_domains());
    v
}

/// What `regex::Regex::new(pattern)` and `is_match(text)` give: `None` where
/// the pattern does not compile, else whether it matches.
pub uninterp spec fn regex_match_of(pattern: Seq<char>, text: Seq<char>) -> Option<bool>;

/// Relies on `regex::Regex::new` and `Regex::is_match`: whether a compiled
/// pattern matches the text, or `None` where the pattern is invalid. The
/// result depends on the two texts alone.
#[verifier::external_body]
fn regex_matches(pattern: &str, text: &str) -> (r: Option<bool>)
    ensures
        r == regex_match_of(pattern@, text@),
{
    match regex::Regex::new(pattern) {
        Ok(re) => Some(re.is_match(text)),
        Err(_) => None,
    }
}

/// Some pattern of `pats` compiles and matches `text`.
pub open spec fn any_regex(pats: Seq<String>, text: Seq<char>) -> bool {
    exists|i: int| 0 <= i < pats.len() && regex_match_of(#[trigger] pats[i]@, text) == Some(true)
}

/// Whether some pattern of `pats` compiles and matches `text`; patterns that
/// do not compile match nothing.
pub fn any_pattern_matches(pats: &Vec<String>, text: &str) -> (r: bool)
    ensures
        r == any_regex(pats@, text@),
{
    let mut i: usize = 0;
    while i < pats.len()
        invariant
            i <= pats.len(),
            forall|j: int| 0 <= j < i ==> regex_match_of(#[trigger] pats@[j]@, text@) != Some(true),
        decreases pats.len() - i,
    {
        match regex_matches(pats[i].as_str(), text) {
            Some(true) => {
                return true;
            },
            _ => {},
        }
        i += 1;
    }
    false
}

/// A process named `lower_name` (lowercase) is reported at start.
pub open spec fn suspicious_process(lower_name: Seq<char>, config: Config) -> bool {
    !any_hit(lower_name, system_processes()) && (any_hit(lower_name, suspicious_names())
        || any_regex(config.suspicious_process_patterns@, lower_name))
}

/// Whether a started process deserves an alert: not a known system process,
/// and a script host or a name that a configured pattern matches.
pub fn is_suspicious_process(process_name: &str, config: &Config) -> (r: bool)
    ensures
        r == suspicious_process(lower_of(process_name@), *config),
{
    let lower_name = lowercase(process_name);
    let h = chars_of(lower_name.as_str());
    if any_contained(&h, &system_process_list()) {
        return false;
    }
    any_contained(&h, &suspicious_name_list()) || any_pattern_matches(
        &config.suspicious_process_patterns,
        lower_name.as_str(),
    )
}

/// A connection to `addr` is reported.
pub open spec fn suspicious_destination(addr: Seq<char>, config: Config) -> bool {
    !private_or_local(addr) && (any_hit(addr, blocked_domains()) || any_regex(
        config.suspicious_network_patterns@,
        addr,
    ))
}

/// Whether a destination deserves an alert: never a private or loopback
/// address; else a known-bad domain or a configured pattern.
pub fn is_suspicious_destination(address: &str, config: &Config) -> (r: bool)
    ensures
        r == suspicious_destination(address@, *config),
{
    if is_private_or_local(address) {
        return false;
    }
    let h = chars_of(address);
    any_contained(&h, &blocked_domain_list()) || any_pattern_matches(
        &config.suspicious_network_patterns,
        address,
    )
}

/// The alerts that a process start raises.
pub open spec fn start_alerts(p: ProcessEvent, config: Config, now: i64) -> Seq<AlertModel> {
    if suspicious_process(lower_of(p.process_name@), config) {
        seq![
            AlertModel {
                severity: AlertSeverity::High,
                rule_name: "SuspiciousProcessStart"@,
                description: "Suspicious process started: "@ + p.process_name@,
                process_name: p.process_name@,
                pid: p.pid,
                evidence: seq!["Process: "@ + p.process_name@],
                timestamp: now,
            },
        ]
    } else {
        seq![]
    }
}

/// The context shows a burst of connections.
pub open spec fn rapid(c: ContextModel, now: i64) -> bool {
    c.network_connections.len() > RAPID_THRESHOLD && recent_count(c.network_connections, now)
        > RAPID_THRESHOLD
}

/// The context is that of a new process that has connected.
pub open spec fn young(c: ContextModel, now: i64) -> bool {
    now - c.start_time < NEW_PROCESS_MS && c.network_connections.len() > 0
}

pub open spec fn rapid_alert(c: ContextModel, now: i64) -> AlertModel {
    AlertModel {
        severity: AlertSeverity::Medium,
        rule_name: "RapidNetworkConnections"@,
        description: "Rapid network connections detected"@,
        process_name: c.process_name,
        pid: c.pid,
        evidence: seq![decimal(recent_count(c.network_connections, now)) + " connections in 10 seconds"@],
        timestamp: now,
    }
}

pub open spec fn destination_alert(c: ContextModel, n: NetworkEvent, now: i64) -> AlertModel {
    AlertModel {
        severity: AlertSeverity::High,
        rule_name: "SuspiciousNetworkConnection"@,
        description: "Connection to suspicious destination: "@ + n.remote_address@,
        process_name: c.process_name,
        pid: c.pid,
        evidence: seq![
            "Destination: "@ + n.remote_address@,
            "Port: "@ + decimal(n.remote_port as nat),
        ],
        timestamp: now,
    }
}

pub open spec fn young_alert(c: ContextModel, now: i64) -> AlertModel {
    AlertModel {
        severity: AlertSeverity::Medium,
        rule_name: "NewProcessNetworkActivity"@,
        description: "New process making network connections"@,
        process_name: c.process_name,
        pid: c.pid,
        evidence: seq![
            "Process age: "@ + signed_decimal(trunc_div(now - c.start_time, 1000)) + " seconds"@,
            "Connections made: "@ + decimal(c.network_connections.len()),
        ],
        timestamp: now,
    }
}

/// The alerts of the stateful rules, in order, for context `c` just after it
/// recorded the connection `n`; a rule that already fired for the context
/// stays silent.
pub open spec fn network_alerts(c: ContextModel, n: NetworkEvent, config: Config, now: i64) -> Seq<
    AlertModel,
> {
    (if rapid_fires(c, now) {
        seq![rapid_alert(c, now)]
    } else {
        seq![]
    }) + (if destination_fires(c, n, config) {
        seq![destination_alert(c, n, now)]
    } else {
        seq![]
    }) + (if young_fires(c, now) {
        seq![young_alert(c, now)]
    } else {
        seq![]
    })
}

/// The alerts that the engine raises when it takes in `e` at `now`.
pub open spec fn event_alerts(s: Seq<ContextModel>, e: EventType, config: Config, now: i64) -> Seq<
    AlertModel,
> {
    match e {
        EventType::ProcessStart(p) => start_alerts(p, config, now),
        EventType::NetworkConnection(n) => if has_pid(s, n.pid) {
            network_alerts(with_connection(context_of(s, n.pid), now), n, config, now)
        } else {
            seq![]
        },
        _ => seq![],
    }
}

pub open spec fn alert_models(v: Seq<Alert>) -> Seq<AlertModel> {
    v.map_values(|a: Alert| a@)
}

/// The rule names of the stateful network rules.
pub open spec fn stateful_rule(name: Seq<char>) -> bool {
    name == "RapidNetworkConnections"@ || name == "SuspiciousNetworkConnection"@ || name
        == "NewProcessNetworkActivity"@
}

impl ContextTable {
    pub open spec fn wf(&self) -> bool {
        unique_pids(self@)
    }

    /// An empty table.
    pub fn new() -> (r: Self)
        ensures
            r@ == Seq::<ContextModel>::empty(),
            r.wf(),
    {
        let r = ContextTable { contexts: Vec::new() };
        assert(r@ =~= Seq::<ContextModel>::empty());
        r
    }

    /// The number of contexts.
    pub fn len(&self) -> (r: usize)
        ensures
            r == self@.len(),
    {
        self.contexts.len()
    }

    /// The position of the context of `pid`, if there is one.
    pub fn find(&self, pid: u32) -> (r: Option<usize>)
        requires
            self.wf(),
        ensures
            match r {
                Some(i) => has_pid(self@, pid) && i == slot(self@, pid) && i < self@.len(),
                None => !has_pid(self@, pid),
            },
    {
        let mut i: usize = 0;
        while i < self.contexts.len()
            invariant
                self.wf(),
                i <= self.contexts@.len(),
                forall|j: int| 0 <= j < i ==> self@[j].pid != pid,
            decreases self.contexts.len() - i,
        {
            if self.contexts[i].pid == pid {
                assert(self@[i as int].pid == pid);
                assert(has_pid(self@, pid));
                let ghost k = slot(self@, pid);
                assert(k == i) by {
                    assert(0 <= k < self@.len() && self@[k].pid == pid);
                    if k != i {
                        assert(self@[k].pid != self@[i as int].pid);
                    }
                }
                return Some(i);
            }
            i += 1;
        }
        None
    }

    /// The context of `pid`, if there is one.
    pub fn get(&self, pid: u32) -> (r: Option<&ProcessContext>)
        requires
            self.wf(),
        ensures
            match r {
                Some(c) => has_pid(self@, pid) && c@ == context_of(self@, pid),
                None => !has_pid(self@, pid),
            },
    {
        match self.find(pid) {
            Some(i) => Some(&self.contexts[i]),
            None => None,
        }
    }

    /// Starts a fresh context for a process, replacing an earlier one of the same pid.
    fn start(&mut self, p: &ProcessEvent, now: i64)
        requires
            old(self).wf(),
        ensures
            final(self).wf(),
            final(self)@ == started(old(self)@, *p, now),
    {
        let ctx = ProcessContext {
            start_time: now,
            process_name: p.process_name.clone(),
            pid: p.pid,
            network_connections: Vec::new(),
            fired_rules: Vec::new(),
        };
        assert(ctx@ == fresh_context(*p, now)) by {
            assert(ctx@.network_connections =~= Seq::<i64>::empty());
            assert(ctx@.fired_rules =~= Seq::<Seq<char>>::empty());
        }
        match self.find(p.pid) {
            Some(i) => {
                self.contexts.remove(i);
                self.contexts.insert(i, ctx);
                assert(self@ =~= old(self)@.update(i as int, fresh_context(*p, now)));
            },
            None => {
                self.contexts.push(ctx);
                assert(self@ =~= old(self)@.push(fresh_context(*p, now)));
            },
        }
    }

    /// Drops the context of `pid`, if there is one.
    fn end(&mut self, pid: u32)
        requires
            old(self).wf(),
        ensures
            final(self).wf(),
            has_pid(old(self)@, pid) ==> final(self)@ == old(self)@.remove(slot(old(self)@, pid)),
            !has_pid(old(self)@, pid) ==> final(self)@ == old(self)@,
    {
        match self.find(pid) {
            Some(i) => {
                self.contexts.remove(i);
                assert(self@ =~= old(self)@.remove(i as int));
            },
            None => {},
        }
    }

    /// Marks the rule `name` as fired in the context at position `i`.
    fn mark_fired(&mut self, i: usize, name: &str)
        requires
            old(self).wf(),
            i < old(self)@.len(),
        ensures
            final(self).wf(),
            final(self)@ == old(self)@.update(
                i as int,
                ContextModel {
                    fired_rules: old(self)@[i as int].fired_rules.push(name@),
                    ..old(self)@[i as int]
                },
            ),
    {
        let mut c = self.contexts.remove(i);
        c.fired_rules.push(name.to_owned());
        self.contexts.insert(i, c);
        assert(texts(c.fired_rules@) =~= old(self)@[i as int].fired_rules.push(name@));
        assert(self@ =~= old(self)@.update(
            i as int,
            ContextModel { fired_rules: old(self)@[i as int].fired_rules.push(name@), ..old(self)@[i as int] },
        ));
    }

    /// Records a connection at `now` in the context at position `i`.
    fn record_connection(&mut self, i: usize, now: i64)
        requires
            old(self).wf(),
            i < old(self)@.len(),
        ensures
            final(self).wf(),
            final(self)@ == old(self)@.update(i as int, with_connection(old(self)@[i as int], now)),
    {
        let mut c = self.contexts.remove(i);
        c.network_connections.push(now);
        self.contexts.insert(i, c);
        assert(self@ =~= old(self)@.update(i as int, with_connection(old(self)@[i as int], now)));
    }
}

/// Whether the rule `name` already fired for the context.
fn has_fired(c: &ProcessContext, name: &str) -> (r: bool)
    ensures
        r == fired(c@, name@),
{
    let mut i: usize = 0;
    while i < c.fired_rules.len()
        invariant
            i <= c.fired_rules@.len(),
            forall|j: int| 0 <= j < i ==> c.fired_rules@[j]@ != name@,
        decreases c.fired_rules.len() - i,
    {
        if same_text(c.fired_rules[i].as_str(), name) {
            assert(c@.fired_rules[i as int] == name@);
            return true;
        }
        i += 1;
    }
    assert(!c@.fired_rules.contains(name@)) by {
        if c@.fired_rules.contains(name@) {
            let k = choose|k: int| 0 <= k < c@.fired_rules.len() && c@.fired_rules[k] == name@;
            assert(c.fired_rules@[k]@ == name@);
        }
    }
    false
}

/// How many of `times` fall inside the trailing window that ends at `now`.
fn count_recent(times: &Vec<i64>, now: i64) -> (r: usize)
    ensures
        r == recent_count(times@, now),
{
    let mut n: usize = 0;
    let mut i: usize = 0;
    while i < times.len()
        invariant
            i <= times.len(),
            n == recent_count(times@.subrange(0, i as int), now),
            n <= i,
        decreases times.len() - i,
    {
        let ghost prev = times@.subrange(0, i as int);
        assert(times@.subrange(0, i + 1).drop_last() =~= prev);
        if (times[i] as i128) > (now as i128) - (RAPID_WINDOW_MS as i128) {
            n += 1;
        }
        i += 1;
    }
    assert(times@.subrange(0, times@.len() as int) =~= times@);
    n
}

fn rapid_alert_exec(c: &ProcessContext, recent: usize, now: i64) -> (r: Alert)
    requires
        recent == recent_count(c@.network_connections, now),
    ensures
        r@ == rapid_alert(c@, now),
{
    let count = decimal_text(recent as u64);
    let mut evidence: Vec<String> = Vec::new();
    evidence.push(join2(count.as_str(), " connections in 10 seconds"));
    let r = Alert::new_at(
        AlertSeverity::Medium,
        "RapidNetworkConnections",
        "Rapid network connections detected",
        c.process_name.as_str(),
        c.pid,
        evidence,
        now,
    );
    assert(r@.evidence =~= rapid_alert(c@, now).evidence);
    r
}

fn destination_alert_exec(c: &ProcessContext, n: &NetworkEvent, now: i64) -> (r: Alert)
    ensures
        r@ == destination_alert(c@, *n, now),
{
    let port = decimal_text(n.remote_port as u64);
    let mut evidence: Vec<String> = Vec::new();
    evidence.push(join2("Destination: ", n.remote_address.as_str()));
    evidence.push(join2("Port: ", port.as_str()));
    let description = join2("Connection to suspicious destination: ", n.remote_address.as_str());
    let r = Alert::new_at(
        AlertSeverity::High,
        "SuspiciousNetworkConnection",
        description.as_str(),
        c.process_name.as_str(),
        c.pid,
        evidence,
        now,
    );
    assert(r@.evidence =~= destination_alert(c@, *n, now).evidence);
    r
}

fn young_alert_exec(c: &ProcessContext, now: i64) -> (r: Alert)
    ensures
        r@ == young_alert(c@, now),
{
    let age: i128 = (now as i128) - (c.start_time as i128);
    let secs: i128 = if age >= 0 {
        age / 1000
    } else {
        -((-age) / 1000)
    };
    assert(-0x1_0000_0000_0000_0000i128 <= secs <= 0x1_0000_0000_0000_0000i128) by (nonlinear_arith)
        requires
            secs == (if age >= 0 {
                age / 1000
            } else {
                -((-age) / 1000)
            }),
            -0x1_0000_0000_0000_0000i128 <= age <= 0x1_0000_0000_0000_0000i128,
    ;
    assert(i64::MIN <= secs <= i64::MAX) by (nonlinear_arith)
        requires
            secs == (if age >= 0 {
                age / 1000
            } else {
                -((-age) / 1000)
            }),
            -0x1_0000_0000_0000_0000i128 <= age <= 0x1_0000_0000_0000_0000i128,
    ;
    let age_text = signed_decimal_text(secs as i64);
    let made = decimal_text(c.network_connections.len() as u64);
    let mut evidence: Vec<String> = Vec::new();
    let mut first = join2("Process age: ", age_text.as_str());
    first.append(" seconds");
    evidence.push(first);
    evidence.push(join2("Connections made: ", made.as_str()));
    let r = Alert::new_at(
        AlertSeverity::Medium,
        "NewProcessNetworkActivity",
        "New process making network connections",
        c.process_name.as_str(),
        c.pid,
        evidence,
        now,
    );
    assert(r@.evidence =~= young_alert(c@, now).evidence);
    r
}

/// Takes in one event at `now`: a process start creates (or replaces) its
/// context, and may be reported; a process end drops it; a connection of a
/// known process is recorded in its context and the stateful rules run, in
/// order: burst of connections, suspicious destination, new process. A
/// connection of an unknown process is dropped. Returns the alerts raised.
pub fn process_event(event: &crate::events::BaseEvent, table: &mut ContextTable, config: &Config, now: i64) -> (r: Vec<Alert>)
    requires
        old(table).wf(),
    ensures
        final(table).wf(),
        final(table)@ == next_contexts(old(table)@, event.event_type, *config, now),
        alert_models(r@) == event_alerts(old(table)@, event.event_type, *config, now),
{
    let mut alerts: Vec<Alert> = Vec::new();
    match &event.event_type {
        EventType::ProcessStart(p) => {
            if is_suspicious_process(p.process_name.as_str(), config) {
                let mut evidence: Vec<String> = Vec::new();
                evidence.push(join2("Process: ", p.process_name.as_str()));
                assert(texts(evidence@) =~= seq!["Process: "@ + p.process_name@]);
                let description = join2("Suspicious process started: ", p.process_name.as_str());
                let a = Alert::new_at(
                    AlertSeverity::High,
                    "SuspiciousProcessStart",
                    description.as_str(),
                    p.process_name.as_str(),
                    p.pid,
                    evidence,
                    now,
                );
                alerts.push(a);
            }
            table.start(p, now);
            assert(alert_models(alerts@) =~= start_alerts(*p, *config, now));
        },
        EventType::ProcessEnd(p) => {
            table.end(p.pid);
            assert(alert_models(alerts@) =~= Seq::<AlertModel>::empty());
        },
        EventType::NetworkConnection(n) => {
            match table.find(n.pid) {
                Some(i) => {
                    table.record_connection(i, now);
                    assert(table.contexts@.len() == table@.len());
                    let c = &table.contexts[i];
                    let ghost cm = with_connection(context_of(old(table)@, n.pid), now);
                    assert(table@[i as int] == c@);
                    assert(c@ == cm);
                    let mut rapid_now = false;
                    if c.network_connections.len() > RAPID_THRESHOLD && !has_fired(c, "RapidNetworkConnections") {
                        let recent = count_recent(&c.network_connections, now);
                        if recent > RAPID_THRESHOLD {
                            alerts.push(rapid_alert_exec(c, recent, now));
                            rapid_now = true;
                        }
                    }
                    let ghost part1 = alert_models(alerts@);
                    assert(rapid_now == rapid_fires(cm, now));
                    assert(part1 =~= (if rapid_fires(cm, now) {
                        seq![rapid_alert(cm, now)]
                    } else {
                        seq![]
                    }));
                    let destination_now = is_suspicious_destination(n.remote_address.as_str(), config)
                        && !has_fired(c, "SuspiciousNetworkConnection");
                    if destination_now {
                        alerts.push(destination_alert_exec(c, n, now));
                    }
                    let ghost part2 = alert_models(alerts@);
                    assert(part2 =~= part1 + (if destination_fires(cm, *n, *config) {
                        seq![destination_alert(cm, *n, now)]
                    } else {
                        seq![]
                    }));
                    let young_now = (now as i128) - (c.start_time as i128) < (NEW_PROCESS_MS as i128)
                        && c.network_connections.len() > 0 && !has_fired(c, "NewProcessNetworkActivity");
                    if young_now {
                        alerts.push(young_alert_exec(c, now));
                    }
                    assert(alert_models(alerts@) =~= part2 + (if young_fires(cm, now) {
                        seq![young_alert(cm, now)]
                    } else {
                        seq![]
                    }));
                    let ghost base = table@;
                    if rapid_now {
                        table.mark_fired(i, "RapidNetworkConnections");
                    }
                    if destination_now {
                        table.mark_fired(i, "SuspiciousNetworkConnection");
                    }
                    if young_now {
                        table.mark_fired(i, "NewProcessNetworkActivity");
                    }
                    assert(table@[i as int].fired_rules =~= cm.fired_rules + fired_now(cm, *n, *config, now));
                    assert(table@ =~= base.update(i as int, after_connection(context_of(old(table)@, n.pid), *n, *config, now)));
                },
                None => {
                    assert(alert_models(alerts@) =~= Seq::<AlertModel>::empty());
                },
            }
        },
        EventType::Alert(_) => {
            assert(alert_models(alerts@) =~= Seq::<AlertModel>::empty());
        },
    }
    alerts
}

/// The context is past its lifetime at `now`, whatever its activity.
pub open spec fn stale(c: ContextModel, now: i64) -> bool {
    now - c.start_time > CONTEXT_LIFETIME_MS
}

/// The contexts that survive a maintenance sweep at `now`, in order.
pub open spec fn purge(s: Seq<ContextModel>, now: i64) -> Seq<ContextModel>
    decreases s.len(),
{
    if s.len() == 0 {
        s
    } else if stale(s.last(), now) {
        purge(s.drop_last(), now)
    } else {
        purge(s.drop_last(), now).push(s.last())
    }
}

proof fn lemma_purge_members(s: Seq<ContextModel>, now: i64)
    ensures
        forall|x: ContextModel| #[trigger] purge(s, now).contains(x) ==> s.contains(x) && !stale(x, now),
        purge(s, now).len() <= s.len(),
    decreases s.len(),
{
    if s.len() > 0 {
        lemma_purge_members(s.drop_last(), now);
        assert forall|x: ContextModel| #[trigger] purge(s, now).contains(x) implies s.contains(x) && !stale(x, now) by {
            let r = purge(s.drop_last(), now);
            if r.contains(x) {
                let k = choose|k: int| 0 <= k < s.drop_last().len() && s.drop_last()[k] == x;
                assert(s[k] == x);
            } else {
                assert(x == s.last());
                assert(s[s.len() - 1] == x);
            }
        }
    }
}

proof fn lemma_purge_unique(s: Seq<ContextModel>, now: i64)
    requires
        unique_pids(s),
    ensures
        unique_pids(purge(s, now)),
    decreases s.len(),
{
    if s.len() > 0 {
        let d = s.drop_last();
        assert(unique_pids(d));
        lemma_purge_unique(d, now);
        lemma_purge_members(d, now);
        if !stale(s.last(), now) {
            let r = purge(d, now);
            assert forall|i: int| 0 <= i < r.len() implies r[i].pid != s.last().pid by {
                assert(r.contains(r[i]));
                let k = choose|k: int| 0 <= k < d.len() && d[k] == r[i];
                assert(s[k] == r[i]);
                assert(k != s.len() - 1);
            }
        }
    }
}

/// The maintenance sweep: drops every context started more than ten minutes
/// before `now`, whether or not it is still active.
pub fn cleanup_old_contexts(table: &mut ContextTable, now: i64)
    requires
        old(table).wf(),
    ensures
        final(table).wf(),
        final(table)@ == purge(old(table)@, now),
{
    let mut src: Vec<ProcessContext> = Vec::new();
    std::mem::swap(&mut src, &mut table.contexts);
    let ghost all = models(src@);
    assert(all == old(table)@);
    let mut kept: Vec<ProcessContext> = Vec::new();
    let ghost mut k: int = 0;
    while src.len() > 0
        invariant
            0 <= k <= all.len(),
            models(src@) == all.subrange(k, all.len() as int),
            models(kept@) == purge(all.subrange(0, k), now),
        decreases src.len(),
    {
        assert(models(src@).len() == src@.len());
        assert(k < all.len());
        let ghost before = src@;
        let c = src.remove(0);
        proof {
            assert(src@ =~= before.drop_first());
            assert(models(src@) =~= models(before).drop_first());
            assert(all.subrange(k, all.len() as int)[0] == c@);
            assert(all.subrange(0, k + 1).drop_last() =~= all.subrange(0, k));
            assert(all.subrange(0, k + 1).last() == c@);
        }
        let age: i128 = (now as i128) - (c.start_time as i128);
        if !(age > (CONTEXT_LIFETIME_MS as i128)) {
            kept.push(c);
        }
        proof {
            k = k + 1;
            assert(models(kept@) =~= purge(all.subrange(0, k), now));
            assert(models(src@) =~= all.subrange(k, all.len() as int));
        }
    }
    assert(all.subrange(0, k) =~= all);
    table.contexts = kept;
    proof {
        lemma_purge_unique(all, now);
    }
}

/// A private, link-local or loopback destination is never reported, whatever
/// the configured patterns and known-bad domains.
pub proof fn lemma_private_destination_never_suspicious(addr: Seq<char>, config: Config)
    requires
        private_or_local(addr),
    ensures
        !suspicious_destination(addr, config),
{
}

/// A stateful network rule never reports a process that, once the event is
/// taken in, has no recorded connection: for a process with no recorded
/// network events, no such rule fires.
pub proof fn lemma_no_connections_no_stateful_alert(
    s: Seq<ContextModel>,
    e: EventType,
    config: Config,
    now: i64,
    pid: u32,
)
    requires
        unique_pids(s),
        !(has_pid(next_contexts(s, e, config, now), pid) && context_of(next_contexts(s, e, config, now), pid).network_connections.len() > 0),
    ensures
        forall|i: int|
            0 <= i < event_alerts(s, e, config, now).len() && (#[trigger] event_alerts(s, e, config, now)[i]).pid == pid
                ==> !stateful_rule(event_alerts(s, e, config, now)[i].rule_name),
{
    let alerts = event_alerts(s, e, config, now);
    match e {
        EventType::ProcessStart(p) => {
            reveal_strlit("SuspiciousProcessStart");
            reveal_strlit("RapidNetworkConnections");
            reveal_strlit("SuspiciousNetworkConnection");
            reveal_strlit("NewProcessNetworkActivity");
            assert forall|i: int| 0 <= i < alerts.len() implies !stateful_rule(#[trigger] alerts[i].rule_name) by {
                assert(alerts[i].rule_name == "SuspiciousProcessStart"@);
            }
        },
        EventType::NetworkConnection(n) => {
            if has_pid(s, n.pid) {
                let j = slot(s, n.pid);
                let c = after_connection(context_of(s, n.pid), n, config, now);
                let next = next_contexts(s, e, config, now);
                assert(next[j] == c);
                assert(c.pid == n.pid);
                assert(has_pid(next, n.pid));
                let j2 = slot(next, n.pid);
                assert(j2 == j) by {
                    if j2 != j {
                        assert(next[j2] == s[j2]);
                    }
                }
                assert(c.network_connections.len() > 0);
                assert(n.pid != pid);
                assert forall|i: int| 0 <= i < alerts.len() implies (#[trigger] alerts[i]).pid == n.pid by {}
            }
        },
        _ => {},
    }
}

/// The event reports a connection of process `pid`.
pub open spec fn connects(e: EventType, pid: u32) -> bool {
    match e {
        EventType::NetworkConnection(n) => n.pid == pid,
        _ => false,
    }
}

proof fn lemma_literals_distinct()
    ensures
        !stateful_rule("SuspiciousProcessStart"@),
{
    reveal_strlit("SuspiciousProcessStart");
    reveal_strlit("RapidNetworkConnections");
    reveal_strlit("SuspiciousNetworkConnection");
    reveal_strlit("NewProcessNetworkActivity");
    assert("SuspiciousProcessStart"@.len() != "RapidNetworkConnections"@.len());
    assert("SuspiciousProcessStart"@.len() != "SuspiciousNetworkConnection"@.len());
    assert("SuspiciousProcessStart"@.len() != "NewProcessNetworkActivity"@.len());
}

/// Every stateful alert of one event names a process whose connection that
/// event reports.
pub proof fn lemma_stateful_alerts_follow_connections(s: Seq<ContextModel>, e: EventType, config: Config, now: i64)
    ensures
        forall|i: int|
            0 <= i < event_alerts(s, e, config, now).len() && stateful_rule(
                (#[trigger] event_alerts(s, e, config, now)[i]).rule_name,
            ) ==> connects(e, event_alerts(s, e, config, now)[i].pid),
{
    let alerts = event_alerts(s, e, config, now);
    lemma_literals_distinct();
    match e {
        EventType::ProcessStart(p) => {
            assert forall|i: int| 0 <= i < alerts.len() implies !stateful_rule(#[trigger] alerts[i].rule_name) by {
                assert(alerts[i].rule_name == "SuspiciousProcessStart"@);
            }
        },
        EventType::NetworkConnection(n) => {
            if has_pid(s, n.pid) {
                assert(context_of(s, n.pid).pid == n.pid);
                assert forall|i: int| 0 <= i < alerts.len() implies (#[trigger] alerts[i]).pid == n.pid by {}
            }
        },
        _ => {},
    }
}

/// The alerts raised over a run of timed events, from contexts `s`.
pub open spec fn run_alerts(s: Seq<ContextModel>, evs: Seq<(EventType, i64)>, config: Config) -> Seq<AlertModel>
    decreases evs.len(),
{
    if evs.len() == 0 {
        seq![]
    } else {
        event_alerts(s, evs[0].0, config, evs[0].1) + run_alerts(
            next_contexts(s, evs[0].0, config, evs[0].1),
            evs.drop_first(),
            config,
        )
    }
}

/// Over a whole run, a process whose connections are never reported gets no
/// alert from a stateful network rule.
pub proof fn lemma_run_without_connections(s: Seq<ContextModel>, evs: Seq<(EventType, i64)>, config: Config, pid: u32)
    requires
        forall|i: int| 0 <= i < evs.len() ==> !connects(#[trigger] evs[i].0, pid),
    ensures
        forall|i: int|
            0 <= i < run_alerts(s, evs, config).len() && (#[trigger] run_alerts(s, evs, config)[i]).pid == pid
                ==> !stateful_rule(run_alerts(s, evs, config)[i].rule_name),
    decreases evs.len(),
{
    if evs.len() > 0 {
        let head = event_alerts(s, evs[0].0, config, evs[0].1);
        let next = next_contexts(s, evs[0].0, config, evs[0].1);
        let rest = evs.drop_first();
        assert forall|i: int| 0 <= i < rest.len() implies !connects(#[trigger] rest[i].0, pid) by {
            assert(rest[i] == evs[i + 1]);
        }
        lemma_run_without_connections(next, rest, config, pid);
        lemma_stateful_alerts_follow_connections(s, evs[0].0, config, evs[0].1);
        assert(!connects(evs[0].0, pid));
        let all = run_alerts(s, evs, config);
        assert forall|i: int| 0 <= i < all.len() && (#[trigger] all[i]).pid == pid implies !stateful_rule(all[i].rule_name) by {
            if i < head.len() {
                assert(all[i] == head[i]);
            } else {
                assert(all[i] == run_alerts(next, rest, config)[i - head.len()]);
            }
        }
    }
}

/// Each stateful rule fires at most once per context: a rule already marked
/// for the process raises no alert, and every stateful alert raised is
/// marked in the process's context afterwards.
pub proof fn lemma_stateful_rule_fires_once(s: Seq<ContextModel>, e: EventType, config: Config, now: i64, name: Seq<char>)
    requires
        unique_pids(s),
    ensures
        match e {
            EventType::NetworkConnection(n) => has_pid(s, n.pid) && fired(context_of(s, n.pid), name) ==> forall|i: int|
                0 <= i < event_alerts(s, e, config, now).len() ==> (#[trigger] event_alerts(s, e, config, now)[i]).rule_name != name,
            _ => true,
        },
        forall|i: int|
            0 <= i < event_alerts(s, e, config, now).len() && stateful_rule(
                (#[trigger] event_alerts(s, e, config, now)[i]).rule_name,
            ) ==> has_pid(next_contexts(s, e, config, now), event_alerts(s, e, config, now)[i].pid) && fired(
                context_of(next_contexts(s, e, config, now), event_alerts(s, e, config, now)[i].pid),
                event_alerts(s, e, config, now)[i].rule_name,
            ),
{
    let alerts = event_alerts(s, e, config, now);
    lemma_literals_distinct();
    match e {
        EventType::ProcessStart(p) => {
            assert forall|i: int| 0 <= i < alerts.len() implies !stateful_rule(#[trigger] alerts[i].rule_name) by {
                assert(alerts[i].rule_name == "SuspiciousProcessStart"@);
            }
        },
        EventType::NetworkConnection(n) => {
            if has_pid(s, n.pid) {
                let j = slot(s, n.pid);
                let c = with_connection(context_of(s, n.pid), now);
                let names = fired_now(c, n, config, now);
                let after = after_connection(context_of(s, n.pid), n, config, now);
                let next = next_contexts(s, e, config, now);
                assert(next[j] == after);
                assert(after.pid == n.pid);
                assert(has_pid(next, n.pid));
                let j2 = slot(next, n.pid);
                assert(j2 == j) by {
                    if j2 != j {
                        assert(next[j2] == s[j2]);
                    }
                }
                assert(alerts.map_values(|a: AlertModel| a.rule_name) =~= names);
                assert forall|i: int| 0 <= i < alerts.len() && stateful_rule(#[trigger] alerts[i].rule_name) implies has_pid(next, alerts[i].pid) && fired(context_of(next, alerts[i].pid), alerts[i].rule_name) by {
                    assert(alerts[i].pid == n.pid);
                    assert(names[i] == alerts[i].rule_name);
                    assert(after.fired_rules[c.fired_rules.len() + i] == names[i]);
                }
                if fired(context_of(s, n.pid), name) {
                    assert forall|i: int| 0 <= i < alerts.len() implies (#[trigger] alerts[i]).rule_name != name by {
                        assert(names[i] == alerts[i].rule_name);
                    }
                }
            }
        },
        _ => {},
    }
}

/// Purging goes by age alone: a context started more than ten minutes
/// before `now` is gone after the sweep, however recent its connections.
pub proof fn lemma_purge_ignores_activity(s: Seq<ContextModel>, now: i64, i: int)
    requires
        unique_pids(s),
        0 <= i < s.len(),
        now - s[i].start_time > CONTEXT_LIFETIME_MS,
    ensures
        !has_pid(purge(s, now), s[i].pid),
{
    lemma_purge_members(s, now);
    let r = purge(s, now);
    if has_pid(r, s[i].pid) {
        let j = choose|j: int| 0 <= j < r.len() && r[j].pid == s[i].pid;
        assert(r.contains(r[j]));
        let k = choose|k: int| 0 <= k < s.len() && s[k] == r[j];
        assert(k == i);
    }
}

/// A context within its lifetime survives the sweep unchanged.
pub proof fn lemma_purge_keeps_live(s: Seq<ContextModel>, now: i64, i: int)
    requires
        0 <= i < s.len(),
        now - s[i].start_time <= CONTEXT_LIFETIME_MS,
    ensures
        purge(s, now).contains(s[i]),
    decreases s.len(),
{
    if i == s.len() - 1 {
        assert(purge(s, now).last() == s[i]);
        assert(purge(s, now)[purge(s, now).len() - 1] == s[i]);
    } else {
        let d = s.drop_last();
        assert(d[i] == s[i]);
        lemma_purge_keeps_live(d, now, i);
        let k = choose|k: int| 0 <= k < purge(d, now).len() && purge(d, now)[k] == s[i];
        if !stale(s.last(), now) {
            assert(purge(s, now)[k] == s[i]);
        }
    }
}

} // verus!
