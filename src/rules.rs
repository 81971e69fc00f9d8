//! The sensor's detection rules over process and network records.
use vstd::prelude::*;
use crate::clock::{now_millis, rfc3339_millis, rfc3339_millis_of};
use crate::patterns::{
    allowed_image_list, allowed_images, staging_dir_list, staging_dirs, drive_script_indicator_list,
    drive_script_indicators, path_script_indicator_list, path_script_indicators,
    suspicious_fragment_list, suspicious_fragments,
    defender_pattern_list, defender_patterns, exfil_marker_list, exfil_markers,
    high_confidence_list, high_confidence_patterns, keylogger_location_list, keylogger_locations,
    loopback_name_list, loopback_names, office_app_list, office_apps, script_marker_list,
    script_markers, shell_image_list, shell_images, suspicious_pattern_list, suspicious_patterns,
    webhook_pattern_list, webhook_patterns,
};
use crate::netaddr::{is_loopback, is_private_or_local, loopback_address, private_or_local};
use crate::shared::{Alert, NetworkEvent, ProcessEvent, alert_header, opt_text};
use crate::text::{
    any_contained, any_hit, any_suffix, chars_of, contains, decimal, decimal_text, ends_with, find,
    first_contained, first_hit, first_occurrence, first_word, first_word_of, has_text, join2, join3,
    join4, lower_of, lowercase, occurs_at, same_text, slice_chars, string_of_chars, trim_chars,
    trim_set,
};

verus! {

/// The image is the script shell.
pub open spec fn shell_image(image_lower: Seq<char>) -> bool {
    exists|i: int| 0 <= i < shell_images().len() && ends_with(image_lower, #[trigger] shell_images()[i]@)
}

/// `a` is a HIGH alert of `rule` for `e` that carries its command line and `details`.
pub open spec fn cmdline_alert(a: Alert, e: ProcessEvent, rule: Seq<char>, details: Seq<char>) -> bool {
    &&& alert_header(a, "HIGH"@, rule, e.image@, e.parent_image@)
    &&& opt_text(a.command_line) == Some(e.command_line@)
    &&& opt_text(a.details) == Some(details)
}

// ---- Office application spawning the shell ----

pub open spec fn office_powershell_details(e: ProcessEvent) -> Seq<char> {
    "Office application spawned PowerShell. PID: "@ + decimal(e.pid as nat) + ", Parent PID: "@
        + decimal(e.parent_pid as nat)
}

/// What the Office-spawned-shell rule gives, with the lowercase parent and child images.
pub open spec fn office_powershell_result(
    e: ProcessEvent,
    parent_lower: Seq<char>,
    image_lower: Seq<char>,
    r: Option<Alert>,
) -> bool {
    let fires = !(e.is_signed && (e.command_line@ == "Unknown"@ || e.command_line@.len() == 0))
        && (exists|i: int| 0 <= i < office_apps().len() && ends_with(parent_lower, #[trigger] office_apps()[i]@))
        && shell_image(image_lower);
    match r {
        Some(a) => fires && cmdline_alert(a, e, "Office spawned PowerShell"@, office_powershell_details(e)),
        None => !fires,
    }
}

/// Detects an Office application spawning the script shell; a signed child
/// with an absent (`Unknown` or empty) command line is let through.
pub fn detect_office_powershell(event: &ProcessEvent) -> (r: Option<Alert>)
    ensures
        office_powershell_result(*event, lower_of(event.parent_image@), lower_of(event.image@), r),
{
    let parent = lowercase(event.parent_image.as_str());
    let image = lowercase(event.image.as_str());
    office_powershell_in(event, parent.as_str(), image.as_str())
}

/// The Office-spawned-shell rule, given the lowercase parent and child images.
pub fn office_powershell_in(event: &ProcessEvent, parent_lower: &str, image_lower: &str) -> (r: Option<Alert>)
    ensures
        office_powershell_result(*event, parent_lower@, image_lower@, r),
{
    let parent = chars_of(parent_lower);
    let image = chars_of(image_lower);
    let is_office_parent = any_suffix(&parent, &office_app_list());
    let is_powershell = any_suffix(&image, &shell_image_list());
    if event.is_signed && (same_text(event.command_line.as_str(), "Unknown") || event.command_line.as_str().unicode_len() == 0) {
        return None;
    }
    if is_office_parent && is_powershell {
        let mut alert = Alert::new(
            "HIGH",
            "Office spawned PowerShell",
            event.image.as_str(),
            event.parent_image.as_str(),
        );
        alert.command_line = Some(event.command_line.clone());
        let pid = decimal_text(event.pid as u64);
        let ppid = decimal_text(event.parent_pid as u64);
        let mut d = join3("Office application spawned PowerShell. PID: ", pid.as_str(), ", Parent PID: ");
        d.append(ppid.as_str());
        alert.details = Some(d);
        return Some(alert);
    }
    None
}

// ---- Suspicious command line ----

/// What the suspicious-command-line rule gives for the lowercase command line `cmd`.
pub open spec fn suspicious_cmdline_result(e: ProcessEvent, cmd: Seq<char>, r: Option<Alert>) -> bool {
    let escalate = !e.is_signed || any_hit(cmd, high_confidence_patterns());
    match r {
        Some(a) => escalate && exists|i: int|
            first_hit(cmd, suspicious_patterns(), i) && cmdline_alert(
                a,
                e,
                "Suspicious command line detected"@,
                "Detected suspicious pattern: "@ + suspicious_patterns()[i]@,
            ),
        None => !(escalate && any_hit(cmd, suspicious_patterns())),
    }
}

/// Detects living-off-the-land, download and bypass patterns in a command line.
/// Low-confidence patterns are ignored for signed processes.
pub fn detect_suspicious_cmdline(event: &ProcessEvent) -> (r: Option<Alert>)
    ensures
        suspicious_cmdline_result(*event, lower_of(event.command_line@), r),
{
    let cmd = lowercase(event.command_line.as_str());
    suspicious_cmdline_in(event, cmd.as_str())
}

/// The suspicious-command-line rule, given the lowercase command line.
pub fn suspicious_cmdline_in(event: &ProcessEvent, cmd_lower: &str) -> (r: Option<Alert>)
    ensures
        suspicious_cmdline_result(*event, cmd_lower@, r),
{
    let h = chars_of(cmd_lower);
    let pats = suspicious_pattern_list();
    match first_contained(&h, &pats) {
        None => None,
        Some(i) => {
            let is_high = any_contained(&h, &high_confidence_list());
            if event.is_signed && !is_high {
                return None;
            }
            let mut alert = Alert::new(
                "HIGH",
                "Suspicious command line detected",
                event.image.as_str(),
                event.parent_image.as_str(),
            );
            alert.command_line = Some(event.command_line.clone());
            alert.details = Some(join2("Detected suspicious pattern: ", pats[i]));
            Some(alert)
        },
    }
}

// ---- Security product tampering ----

/// What the defender-tamper rule gives for the lowercase command line `cmd`.
pub open spec fn defender_disable_result(e: ProcessEvent, cmd: Seq<char>, r: Option<Alert>) -> bool {
    match r {
        Some(a) => exists|i: int|
            first_hit(cmd, defender_patterns(), i) && cmdline_alert(
                a,
                e,
                "Attempt to disable Windows Defender detected"@,
                "Command matched defender-disable pattern: "@ + defender_patterns()[i]@,
            ),
        None => !any_hit(cmd, defender_patterns()),
    }
}

/// Detects command lines that disable or tamper with the security product.
pub fn detect_defender_disable_by_cmdline(event: &ProcessEvent) -> (r: Option<Alert>)
    ensures
        defender_disable_result(*event, lower_of(event.command_line@), r),
{
    let cmd = lowercase(event.command_line.as_str());
    defender_disable_in(event, cmd.as_str())
}

/// The defender-tamper rule, given the lowercase command line.
pub fn defender_disable_in(event: &ProcessEvent, cmd_lower: &str) -> (r: Option<Alert>)
    ensures
        defender_disable_result(*event, cmd_lower@, r),
{
    let h = chars_of(cmd_lower);
    let pats = defender_pattern_list();
    match first_contained(&h, &pats) {
        None => None,
        Some(i) => {
            let mut alert = Alert::new(
                "HIGH",
                "Attempt to disable Windows Defender detected",
                event.image.as_str(),
                event.parent_image.as_str(),
            );
            alert.command_line = Some(event.command_line.clone());
            alert.details = Some(join2("Command matched defender-disable pattern: ", pats[i]));
            Some(alert)
        },
    }
}

// ---- Chat webhook in the command line ----

/// What the webhook rule gives for the lowercase command line `cmd`.
pub open spec fn webhook_result(e: ProcessEvent, cmd: Seq<char>, r: Option<Alert>) -> bool {
    match r {
        Some(a) => any_hit(cmd, webhook_patterns()) && cmdline_alert(
            a,
            e,
            "Discord webhook exfiltration detected"@,
            "Command line contains a Discord webhook URL (possible data exfiltration)."@,
        ),
        None => !any_hit(cmd, webhook_patterns()),
    }
}

/// Detects a chat-webhook URL in a command line, a common exfiltration channel.
pub fn detect_discord_webhook_in_cmdline(event: &ProcessEvent) -> (r: Option<Alert>)
    ensures
        webhook_result(*event, lower_of(event.command_line@), r),
{
    let cmd = lowercase(event.command_line.as_str());
    webhook_in(event, cmd.as_str())
}

/// The webhook rule, given the lowercase command line.
pub fn webhook_in(event: &ProcessEvent, cmd_lower: &str) -> (r: Option<Alert>)
    ensures
        webhook_result(*event, cmd_lower@, r),
{
    let h = chars_of(cmd_lower);
    if any_contained(&h, &webhook_pattern_list()) {
        let mut alert = Alert::new(
            "HIGH",
            "Discord webhook exfiltration detected",
            event.image.as_str(),
            event.parent_image.as_str(),
        );
        alert.command_line = Some(event.command_line.clone());
        alert.details = Some(
            "Command line contains a Discord webhook URL (possible data exfiltration).".to_owned(),
        );
        return Some(alert);
    }
    None
}

// ---- Unsigned process in a user-writable directory with network activity ----

pub open spec fn remote_text(net: NetworkEvent) -> Seq<char> {
    net.remote_addr@ + ":"@ + decimal(net.remote_port as nat)
}

/// What the keylogger rule gives, with the lowercase image.
pub open spec fn keylogger_result(
    p: ProcessEvent,
    net: NetworkEvent,
    image_lower: Seq<char>,
    r: Option<Alert>,
) -> bool {
    let fires = net.pid == p.pid && any_hit(image_lower, keylogger_locations()) && !p.is_signed
        && !private_or_local(net.remote_addr@);
    match r {
        Some(a) => fires && alert_header(
            a,
            "HIGH"@,
            "Possible keylogger - unsigned process from suspicious location"@,
            p.image@,
            p.parent_image@,
        ) && a.command_line is None && opt_text(a.details) == Some(
            "Process from suspicious directory with network activity. Remote: "@ + remote_text(net),
        ),
        None => !fires,
    }
}

/// Detects an unsigned process under a user-writable directory that talks to
/// an external host (neither loopback nor a private range).
pub fn detect_possible_keylogger(proc: &ProcessEvent, net: &NetworkEvent) -> (r: Option<Alert>)
    ensures
        keylogger_result(*proc, *net, lower_of(proc.image@), r),
{
    let image = lowercase(proc.image.as_str());
    keylogger_in(proc, net, image.as_str())
}

fn remote_endpoint(net: &NetworkEvent) -> (r: String)
    ensures
        r@ == remote_text(*net),
{
    let port = decimal_text(net.remote_port as u64);
    join3(net.remote_addr.as_str(), ":", port.as_str())
}

/// The keylogger rule, given the lowercase image.
pub fn keylogger_in(proc: &ProcessEvent, net: &NetworkEvent, image_lower: &str) -> (r: Option<Alert>)
    ensures
        keylogger_result(*proc, *net, image_lower@, r),
{
    if net.pid != proc.pid || is_private_or_local(net.remote_addr.as_str()) {
        return None;
    }
    let h = chars_of(image_lower);
    let is_suspicious_location = any_contained(&h, &keylogger_location_list());
    if is_suspicious_location && !proc.is_signed {
        let mut alert = Alert::new(
            "HIGH",
            "Possible keylogger - unsigned process from suspicious location",
            proc.image.as_str(),
            proc.parent_image.as_str(),
        );
        let remote = remote_endpoint(net);
        alert.details = Some(
            join2("Process from suspicious directory with network activity. Remote: ", remote.as_str()),
        );
        return Some(alert);
    }
    None
}

// ---- Script shell talking to an external host ----

/// The address is one of the names of the local machine.
pub open spec fn loopback_name(addr: Seq<char>) -> bool {
    exists|i: int| 0 <= i < loopback_names().len() && addr == #[trigger] loopback_names()[i]@
}

pub open spec fn network_exfil_details(p: ProcessEvent, net: NetworkEvent) -> Seq<char> {
    "PowerShell PID "@ + decimal(p.pid as nat) + " connected to "@ + remote_text(net)
        + " shortly after script launch"@
}

/// What the shell-exfiltration rule gives, with the lowercase image and command line.
pub open spec fn network_exfil_result(
    p: ProcessEvent,
    net: NetworkEvent,
    image_lower: Seq<char>,
    cmd: Seq<char>,
    r: Option<Alert>,
) -> bool {
    let fires = net.pid == p.pid && shell_image(image_lower) && !loopback_name(net.remote_addr@) && (any_hit(
        cmd,
        script_markers(),
    ) || any_hit(cmd, exfil_markers()) || !p.is_signed);
    match r {
        Some(a) => fires && cmdline_alert(
            a,
            p,
            "PowerShell network exfiltration suspicion"@,
            network_exfil_details(p, net),
        ),
        None => !fires,
    }
}

/// Detects a script shell that runs a script or an explicit web call, or is
/// unsigned, and itself connects to a host other than the local machine.
pub fn detect_powershell_network_exfil(proc: &ProcessEvent, net: &NetworkEvent) -> (r: Option<Alert>)
    ensures
        network_exfil_result(*proc, *net, lower_of(proc.image@), lower_of(proc.command_line@), r),
{
    let image = lowercase(proc.image.as_str());
    let cmd = lowercase(proc.command_line.as_str());
    network_exfil_in(proc, net, image.as_str(), cmd.as_str())
}

/// Whether `addr` is one of the names of the local machine.
pub fn is_loopback_name(addr: &str) -> (r: bool)
    ensures
        r == loopback_name(addr@),
{
    let names = loopback_name_list();
    let mut i: usize = 0;
    while i < names.len()
        invariant
            names@ == loopback_names(),
            i <= names.len(),
            forall|j: int| 0 <= j < i ==> addr@ != #[trigger] loopback_names()[j]@,
        decreases names.len() - i,
    {
        if same_text(addr, names[i]) {
            return true;
        }
        i += 1;
    }
    false
}

/// The shell-exfiltration rule, given the lowercase image and command line.
pub fn network_exfil_in(proc: &ProcessEvent, net: &NetworkEvent, image_lower: &str, cmd_lower: &str) -> (r:
    Option<Alert>)
    ensures
        network_exfil_result(*proc, *net, image_lower@, cmd_lower@, r),
{
    let image = chars_of(image_lower);
    let cmd = chars_of(cmd_lower);
    if net.pid != proc.pid {
        return None;
    }
    if !any_suffix(&image, &shell_image_list()) {
        return None;
    }
    if is_loopback_name(net.remote_addr.as_str()) {
        return None;
    }
    let looks_like_script = any_contained(&cmd, &script_marker_list());
    let explicit_exfil = any_contained(&cmd, &exfil_marker_list());
    if !(looks_like_script || explicit_exfil || !proc.is_signed) {
        return None;
    }
    let mut alert = Alert::new(
        "HIGH",
        "PowerShell network exfiltration suspicion",
        proc.image.as_str(),
        proc.parent_image.as_str(),
    );
    alert.command_line = Some(proc.command_line.clone());
    let pid = decimal_text(proc.pid as u64);
    let remote = remote_endpoint(net);
    let mut d = join4("PowerShell PID ", pid.as_str(), " connected to ", remote.as_str());
    d.append(" shortly after script launch");
    alert.details = Some(d);
    Some(alert)
}

// ---- Unsigned process with repeated external connections ----

/// Per-process count of qualifying connections of the unsigned-network rule.
#[derive(Debug)]
pub struct NetCounter {
    pub counts: std::collections::HashMap<u32, u32>,
}

impl View for NetCounter {
    type V = Map<u32, u32>;

    open spec fn view(&self) -> Map<u32, u32> {
        self.counts@
    }
}

impl NetCounter {
    /// A counter with no process counted.
    pub fn new() -> (r: Self)
        ensures
            r@ == Map::<u32, u32>::empty(),
    {
        NetCounter { counts: std::collections::HashMap::new() }
    }
}

/// A process is young, for the unsigned-network rule, while it is less than
/// this many milliseconds old.
pub const UNSIGNED_MAX_AGE_MS: i64 = 120_000;

/// The connection passes the checks made before any counting: same process,
/// unsigned, outside the reserved pid range, and not to a loopback address.
pub open spec fn unsigned_network_gate(p: ProcessEvent, net: NetworkEvent) -> bool {
    &&& net.pid == p.pid
    &&& !p.is_signed
    &&& p.pid > 10
    &&& !loopback_address(net.remote_addr@)
}

/// The connection is counted: it passes those checks, and the timestamp of
/// the process parses to an instant less than two minutes before `now`.
pub open spec fn unsigned_network_counted(p: ProcessEvent, net: NetworkEvent, start: Option<i64>, now: i64) -> bool {
    unsigned_network_gate(p, net) && match start {
        Some(t) => now - t < UNSIGNED_MAX_AGE_MS,
        None => false,
    }
}

/// The count of `pid` once one more connection is counted.
pub open spec fn next_count(counts: Map<u32, u32>, pid: u32) -> u32 {
    let c = if counts.contains_key(pid) {
        counts[pid]
    } else {
        0
    };
    if c == u32::MAX {
        c
    } else {
        (c + 1) as u32
    }
}

/// The unsigned-network rule fires.
pub open spec fn unsigned_network_fires(
    p: ProcessEvent,
    net: NetworkEvent,
    image_lower: Seq<char>,
    start: Option<i64>,
    now: i64,
    counts: Map<u32, u32>,
) -> bool {
    &&& unsigned_network_counted(p, net, start, now)
    &&& next_count(counts, p.pid) >= 3
    &&& !any_hit(image_lower, allowed_images())
    &&& any_hit(image_lower, staging_dirs())
}

/// What the unsigned-network rule gives and how it changes the counts, with
/// the lowercase image, the process's start instant (if its timestamp reads)
/// and the current instant.
pub open spec fn unsigned_network_result(
    p: ProcessEvent,
    net: NetworkEvent,
    image_lower: Seq<char>,
    start: Option<i64>,
    now: i64,
    before: Map<u32, u32>,
    after: Map<u32, u32>,
    r: Option<Alert>,
) -> bool {
    let fires = unsigned_network_fires(p, net, image_lower, start, now, before);
    &&& after == if !unsigned_network_counted(p, net, start, now) {
        before
    } else if fires {
        before.remove(p.pid)
    } else {
        before.insert(p.pid, next_count(before, p.pid))
    }
    &&& match r {
        Some(a) => fires && alert_header(
            a,
            "LOW"@,
            "Suspicious unsigned process with network activity"@,
            p.image@,
            p.parent_image@,
        ) && a.command_line is None && opt_text(a.details) == Some(
            "Unsigned process made repeated external connections to "@ + remote_text(net),
        ),
        None => !fires,
    }
}

/// Detects an unsigned process, started within the last two minutes and
/// located in a staging directory, that keeps connecting outward: it fires
/// on the third counted connection, unless the image is a common legitimate
/// program, and then resets the count.
pub fn detect_unsigned_network(proc: &ProcessEvent, net: &NetworkEvent, counter: &mut NetCounter) -> (r:
    Option<Alert>)
    ensures
        exists|now: i64|
            unsigned_network_result(
                *proc,
                *net,
                lower_of(proc.image@),
                rfc3339_millis_of(proc.timestamp@),
                now,
                old(counter)@,
                final(counter)@,
                r,
            ),
{
    let image = lowercase(proc.image.as_str());
    let start = rfc3339_millis(proc.timestamp.as_str());
    let now = now_millis();
    unsigned_network_at(proc, net, image.as_str(), start, now, counter)
}

/// The unsigned-network rule, given the lowercase image, the process's start
/// instant and the current instant.
pub fn unsigned_network_at(
    proc: &ProcessEvent,
    net: &NetworkEvent,
    image_lower: &str,
    start: Option<i64>,
    now: i64,
    counter: &mut NetCounter,
) -> (r: Option<Alert>)
    ensures
        unsigned_network_result(*proc, *net, image_lower@, start, now, old(counter)@, final(counter)@, r),
{
    broadcast use vstd::std_specs::hash::group_hash_axioms;

    if net.pid != proc.pid || proc.is_signed || proc.pid <= 10 {
        return None;
    }
    if is_loopback(net.remote_addr.as_str()) {
        return None;
    }
    let t = match start {
        Some(t) => t,
        None => {
            return None;
        },
    };
    if (now as i128) - (t as i128) >= (UNSIGNED_MAX_AGE_MS as i128) {
        return None;
    }
    let c: u32 = match counter.counts.get(&proc.pid) {
        Some(c) => *c,
        None => 0,
    };
    let c1: u32 = if c == u32::MAX {
        c
    } else {
        c + 1
    };
    counter.counts.insert(proc.pid, c1);
    if c1 < 3 {
        return None;
    }
    let h = chars_of(image_lower);
    if any_contained(&h, &allowed_image_list()) {
        return None;
    }
    if !any_contained(&h, &staging_dir_list()) {
        return None;
    }
    counter.counts.remove(&proc.pid);
    assert(counter@ =~= old(counter)@.remove(proc.pid));
    let mut alert = Alert::new(
        "LOW",
        "Suspicious unsigned process with network activity",
        proc.image.as_str(),
        proc.parent_image.as_str(),
    );
    let remote = remote_endpoint(net);
    alert.details = Some(join2("Unsigned process made repeated external connections to ", remote.as_str()));
    Some(alert)
}

// ---- Script shell run hidden from removable or user-writable storage ----

/// Where a hidden script was launched from.
#[derive(Debug, Clone, Copy, PartialEq, Eq, Structural)]
pub enum ScriptOrigin {
    /// A drive other than the system drive, by its lowercase letter.
    Drive(char),
    /// A path with a removable, temporary or user-writable fragment.
    SuspiciousPath,
}

/// A script shell launched hidden with a script file.
#[derive(Debug, Clone)]
pub struct HiddenLaunch {
    pub script: String,
    pub origin: ScriptOrigin,
}

pub open spec fn ascii_alpha(c: char) -> bool {
    ('a' <= c <= 'z') || ('A' <= c <= 'Z')
}

/// `c` with an ASCII capital made small.
pub open spec fn ascii_lower(c: char) -> char {
    if 'A' <= c <= 'Z' {
        ((c as u8) + 32) as u8 as char
    } else {
        c
    }
}

fn ascii_lower_exec(c: char) -> (r: char)
    ensures
        r == ascii_lower(c),
{
    if 'A' <= c && c <= 'Z' {
        ((c as u8) + 32) as char
    } else {
        c
    }
}

/// The script token with quotes stripped at both ends, then a leading backtick.
pub open spec fn script_path(token: Seq<char>) -> Seq<char> {
    let q = trim_set(trim_set(token, seq!['"']), seq!['\'']);
    if q.len() > 0 && q[0] == '`' {
        q.drop_first()
    } else {
        q
    }
}

/// The script path that follows the first `-file` of the lowercase command line.
pub open spec fn script_after_file(cmd: Seq<char>) -> Option<Seq<char>> {
    if contains(cmd, "-file"@) {
        let idx = choose|i: int| first_occurrence(cmd, "-file"@, i);
        match first_word(cmd.subrange(idx + 5, cmd.len() as int)) {
            Some(tok) => Some(script_path(tok)),
            None => None,
        }
    } else {
        None
    }
}

/// Where a script whose lowercase path is `pl` comes from, if it is suspect:
/// a drive letter other than `c`, else a suspicious fragment.
pub open spec fn origin_of(pl: Seq<char>) -> Option<ScriptOrigin> {
    if pl.len() >= 2 && pl[1] == ':' && ascii_alpha(pl[0]) && ascii_lower(pl[0]) != 'c' {
        Some(ScriptOrigin::Drive(ascii_lower(pl[0])))
    } else if any_hit(pl, suspicious_fragments()) {
        Some(ScriptOrigin::SuspiciousPath)
    } else {
        None
    }
}

/// The hidden launch seen in a process with the lowercase image and command
/// line, if any.
pub open spec fn hidden_launch(image_lower: Seq<char>, cmd: Seq<char>) -> Option<(Seq<char>, ScriptOrigin)> {
    if shell_image(image_lower) && contains(cmd, "-windowstyle hidden"@) {
        match script_after_file(cmd) {
            Some(p) => match origin_of(lower_of(p)) {
                Some(o) => Some((p, o)),
                None => None,
            },
            None => None,
        }
    } else {
        None
    }
}

/// The script's origin, given its path and the lowercase path.
pub fn script_origin(pl: &str) -> (r: Option<ScriptOrigin>)
    ensures
        r == origin_of(pl@),
{
    let h = chars_of(pl);
    if h.len() >= 2 && h[1] == ':' && (('a' <= h[0] && h[0] <= 'z') || ('A' <= h[0] && h[0] <= 'Z')) {
        let drive = ascii_lower_exec(h[0]);
        if drive != 'c' {
            return Some(ScriptOrigin::Drive(drive));
        }
    }
    if any_contained(&h, &suspicious_fragment_list()) {
        Some(ScriptOrigin::SuspiciousPath)
    } else {
        None
    }
}

fn script_token_path(tok: &Vec<char>) -> (r: Vec<char>)
    ensures
        r@ == script_path(tok@),
{
    let dq: Vec<char> = vec!['"'];
    assert(dq@ =~= seq!['"']);
    let sq: Vec<char> = vec!['\''];
    assert(sq@ =~= seq!['\'']);
    let a = trim_chars(tok, &dq);
    let q = trim_chars(&a, &sq);
    if q.len() > 0 && q[0] == '`' {
        let r = slice_chars(&q, 1, q.len());
        assert(r@ =~= q@.drop_first());
        r
    } else {
        q
    }
}

/// The script path that follows the first `-file`, given the lowercase command line.
pub fn script_after_file_of(cmd_lower: &str) -> (r: Option<String>)
    ensures
        match r {
            Some(p) => script_after_file(cmd_lower@) == Some(p@),
            None => script_after_file(cmd_lower@) is None,
        },
{
    let h = chars_of(cmd_lower);
    let marker = chars_of("-file");
    match find(&h, &marker) {
        None => None,
        Some(idx) => {
            let ghost k = choose|i: int| first_occurrence(h@, "-file"@, i);
            assert(k == idx) by {
                if k < idx {
                } else if k > idx {
                }
            }
            assert(marker@.len() == 5) by {
                reveal_strlit("-file");
            }
            assert(first_occurrence(h@, marker@, idx as int));
            assert(idx + marker@.len() <= h@.len());
            assert(marker.len() == marker@.len());
            assert(h.len() == h@.len());
            assert(idx + marker.len() <= h.len());
            let from = idx + marker.len();
            let after = slice_chars(&h, from, h.len());
            match first_word_of(&after) {
                None => None,
                Some(tok) => {
                    let p = script_token_path(&tok);
                    Some(string_of_chars(&p))
                },
            }
        },
    }
}

/// The hidden launch that a process shows, given its lowercase image and
/// command line.
pub fn hidden_launch_in(image_lower: &str, cmd_lower: &str) -> (r: Option<HiddenLaunch>)
    ensures
        match r {
            Some(l) => hidden_launch(image_lower@, cmd_lower@) == Some((l.script@, l.origin)),
            None => hidden_launch(image_lower@, cmd_lower@) is None,
        },
{
    let image = chars_of(image_lower);
    let cmd = chars_of(cmd_lower);
    if !any_suffix(&image, &shell_image_list()) {
        return None;
    }
    if !has_text(&cmd, "-windowstyle hidden") {
        return None;
    }
    match script_after_file_of(cmd_lower) {
        None => None,
        Some(p) => {
            let pl = lowercase(p.as_str());
            match script_origin(pl.as_str()) {
                Some(origin) => Some(HiddenLaunch { script: p, origin }),
                None => None,
            }
        },
    }
}

/// The hidden script launch of a process, if any: the script shell run with a
/// hidden window and `-file` naming a script on a drive other than the system
/// drive, or under a removable, temporary or user-writable path.
pub fn hidden_script_launch(event: &ProcessEvent) -> (r: Option<HiddenLaunch>)
    ensures
        match r {
            Some(l) => hidden_launch(lower_of(event.image@), lower_of(event.command_line@)) == Some(
                (l.script@, l.origin),
            ),
            None => hidden_launch(lower_of(event.image@), lower_of(event.command_line@)) is None,
        },
{
    let image = lowercase(event.image.as_str());
    let cmd = lowercase(event.command_line.as_str());
    hidden_launch_in(image.as_str(), cmd.as_str())
}

/// `p` with each `/` written as `\`.
pub open spec fn backslashed(p: Seq<char>) -> Seq<char> {
    Seq::new(p.len(), |i: int| if p[i] == '/' { '\\' } else { p[i] })
}

/// The file to read for a hidden launch: its script path with `\` separators.
pub fn script_read_path(launch: &HiddenLaunch) -> (r: String)
    ensures
        r@ == backslashed(launch.script@),
{
    let h = chars_of(launch.script.as_str());
    let mut v: Vec<char> = Vec::new();
    let mut i: usize = 0;
    while i < h.len()
        invariant
            i <= h.len(),
            v@ == backslashed(h@).subrange(0, i as int),
        decreases h.len() - i,
    {
        let c = if h[i] == '/' {
            '\\'
        } else {
            h[i]
        };
        v.push(c);
        i += 1;
        assert(v@ =~= backslashed(h@).subrange(0, i as int));
    }
    assert(v@ =~= backslashed(h@));
    string_of_chars(&v)
}

/// The indicators searched for in a script of this origin.
pub open spec fn script_indicators(origin: ScriptOrigin) -> Seq<&'static str> {
    match origin {
        ScriptOrigin::Drive(_) => drive_script_indicators(),
        ScriptOrigin::SuspiciousPath => path_script_indicators(),
    }
}

/// The opening of a hidden-launch alert's details without an indicator.
pub open spec fn hidden_lead(p: Seq<char>, origin: ScriptOrigin) -> Seq<char> {
    match origin {
        ScriptOrigin::Drive(d) => "Hidden PowerShell -File from drive "@ + seq![d] + " detected: "@ + p,
        ScriptOrigin::SuspiciousPath => "Hidden PowerShell -File from suspicious path detected: "@ + p,
    }
}

/// The details of a hidden-launch alert, given the lowercase script content
/// (`None` where the script could not be read).
pub open spec fn hidden_details(p: Seq<char>, origin: ScriptOrigin, content: Option<Seq<char>>) -> Seq<char> {
    let indicators = script_indicators(origin);
    match content {
        Some(text) => if any_hit(text, indicators) {
            let i = choose|i: int| first_hit(text, indicators, i);
            "Script "@ + p + " contains indicator: "@ + indicators[i]@
        } else {
            hidden_lead(p, origin) + " (script scanned, no explicit indicator found)"@
        },
        None => hidden_lead(p, origin) + " (script unreadable)"@,
    }
}

/// Where the script holds an indicator, the details name the script and the
/// first indicator found in it.
pub proof fn lemma_hidden_details_name_indicator(p: Seq<char>, origin: ScriptOrigin, text: Seq<char>)
    requires
        any_hit(text, script_indicators(origin)),
    ensures
        exists|i: int|
            first_hit(text, script_indicators(origin), i) && contains(
                hidden_details(p, origin, Some(text)),
                (#[trigger] script_indicators(origin)[i])@,
            ) && contains(hidden_details(p, origin, Some(text)), p),
{
    let inds = script_indicators(origin);
    let k = choose|k: int| 0 <= k < inds.len() && contains(text, inds[k]@);
    lemma_some_first_hit(text, inds, k);
    let i = choose|i: int| first_hit(text, inds, i);
    let d = hidden_details(p, origin, Some(text));
    let head = "Script "@ + p + " contains indicator: "@;
    assert(d == head + inds[i]@);
    assert(d.subrange(head.len() as int, d.len() as int) =~= inds[i]@);
    assert(occurs_at(d, inds[i]@, head.len() as int));
    assert(d.subrange(7, 7 + p.len() as int) =~= p) by {
        reveal_strlit("Script ");
    }
    assert(occurs_at(d, p, 7)) by {
        reveal_strlit("Script ");
    }
}

proof fn lemma_some_first_hit(h: Seq<char>, pats: Seq<&str>, k: int)
    requires
        0 <= k < pats.len(),
        contains(h, pats[k]@),
    ensures
        exists|i: int| first_hit(h, pats, i),
    decreases k,
{
    if forall|j: int| 0 <= j < k ==> !contains(h, #[trigger] pats[j]@) {
        assert(first_hit(h, pats, k));
    } else {
        let j = choose|j: int| 0 <= j < k && contains(h, #[trigger] pats[j]@);
        lemma_some_first_hit(h, pats, j);
    }
}

/// Where the script could not be read, the rule still reports the launch:
/// the details name the script and end by saying it was unreadable.
pub proof fn lemma_hidden_details_unreadable(p: Seq<char>, origin: ScriptOrigin)
    ensures
        contains(hidden_details(p, origin, None), p),
        ends_with(hidden_details(p, origin, None), " (script unreadable)"@),
{
    let d = hidden_details(p, origin, None);
    let lead = hidden_lead(p, origin);
    let tail = " (script unreadable)"@;
    assert(d == lead + tail);
    assert(d.subrange(lead.len() as int, d.len() as int) =~= tail);
    let pre = (lead.len() - p.len()) as int;
    assert(lead.subrange(pre, lead.len() as int) =~= p);
    assert(d.subrange(pre, pre + p.len()) =~= p);
    assert(occurs_at(d, p, pre));
}

proof fn lemma_first_hit_unique(h: Seq<char>, pats: Seq<&str>, i: int, j: int)
    requires
        first_hit(h, pats, i),
        first_hit(h, pats, j),
    ensures
        i == j,
{
    if i < j {
        assert(!contains(h, pats[i]@));
    } else if j < i {
        assert(!contains(h, pats[j]@));
    }
}

/// The details of a hidden-launch alert, given the lowercase script content.
pub fn hidden_details_in(launch: &HiddenLaunch, content_lower: Option<&str>) -> (r: String)
    ensures
        r@ == hidden_details(
            launch.script@,
            launch.origin,
            match content_lower {
                Some(t) => Some(t@),
                None => None,
            },
        ),
{
    let p = launch.script.as_str();
    let lead = match launch.origin {
        ScriptOrigin::Drive(d) => {
            let dt = crate::text::char_text(d);
            let mut s = join3("Hidden PowerShell -File from drive ", dt.as_str(), " detected: ");
            s.append(p);
            s
        },
        ScriptOrigin::SuspiciousPath => join2("Hidden PowerShell -File from suspicious path detected: ", p),
    };
    match content_lower {
        Some(text) => {
            let indicators = match launch.origin {
                ScriptOrigin::Drive(_) => drive_script_indicator_list(),
                ScriptOrigin::SuspiciousPath => path_script_indicator_list(),
            };
            let h = chars_of(text);
            match first_contained(&h, &indicators) {
                Some(i) => {
                    proof {
                        let k = choose|k: int| first_hit(h@, indicators@, k);
                        lemma_first_hit_unique(h@, indicators@, k, i as int);
                    }
                    join4("Script ", p, " contains indicator: ", indicators[i])
                },
                None => join2(lead.as_str(), " (script scanned, no explicit indicator found)"),
            }
        },
        None => join2(lead.as_str(), " (script unreadable)"),
    }
}

/// What the hidden-script rule gives for a process with the lowercase image
/// and command line, where the script read as `content`.
pub open spec fn hidden_script_result(
    e: ProcessEvent,
    image_lower: Seq<char>,
    cmd: Seq<char>,
    content: Option<String>,
    r: Option<Alert>,
) -> bool {
    match hidden_launch(image_lower, cmd) {
        Some((p, o)) => match r {
            Some(a) => cmdline_alert(
                a,
                e,
                match o {
                    ScriptOrigin::Drive(_) => "PowerShell executed hidden from non-system drive"@,
                    ScriptOrigin::SuspiciousPath => "PowerShell executed hidden from suspicious path"@,
                },
                hidden_details(
                    p,
                    o,
                    match content {
                        Some(t) => Some(lower_of(t@)),
                        None => None,
                    },
                ),
            ),
            None => false,
        },
        None => r is None,
    }
}

/// Detects the script shell launched hidden with a script from another drive
/// or a removable, temporary or user-writable path. `script` is the content
/// of the file at `script_read_path` of the launch, or `None` where it could
/// not be read; the rule fires either way, scanning the content for
/// keylogging and exfiltration indicators when it has it.
pub fn detect_powershell_hidden_from_removable(event: &ProcessEvent, script: Option<String>) -> (r: Option<Alert>)
    ensures
        hidden_script_result(*event, lower_of(event.image@), lower_of(event.command_line@), script, r),
{
    let launch = match hidden_script_launch(event) {
        Some(l) => l,
        None => {
            return None;
        },
    };
    let rule = match launch.origin {
        ScriptOrigin::Drive(_) => "PowerShell executed hidden from non-system drive",
        ScriptOrigin::SuspiciousPath => "PowerShell executed hidden from suspicious path",
    };
    let mut alert = Alert::new("HIGH", rule, event.image.as_str(), event.parent_image.as_str());
    alert.command_line = Some(event.command_line.clone());
    let details = match &script {
        Some(text) => {
            let lower = lowercase(text.as_str());
            hidden_details_in(&launch, Some(lower.as_str()))
        },
        None => hidden_details_in(&launch, None),
    };
    alert.details = Some(details);
    Some(alert)
}

} // verus!
