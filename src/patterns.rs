//! The fixed pattern lists of the detection rules, all lowercase.
use vstd::prelude::*;

verus! {

/// Office applications whose children are watched.
pub open spec fn office_apps() -> Seq<&'static str> {
    seq![
        "winword.exe",
        "excel.exe",
        "outlook.exe",
        "powerpnt.exe",
    ]
}

pub fn office_app_list() -> (r: Vec<&'static str>)
    ensures
        r@ == office_apps(),
{
    let mut v: Vec<&'static str> = Vec::new();
    v.push("winword.exe");
    v.push("excel.exe");
    v.push("outlook.exe");
    v.push("powerpnt.exe");
    assert(v@ =~= office_apps());
    v
}

/// Image names of the script shell.
pub open spec fn shell_images() -> Seq<&'static str> {
    seq![
        "powershell.exe",
        "pwsh.exe",
    ]
}

pub fn shell_image_list() -> (r: Vec<&'static str>)
    ensures
        r@ == shell_images(),
{
    let mut v: Vec<&'static str> = Vec::new();
    v.push("powershell.exe");
    v.push("pwsh.exe");
    assert(v@ =~= shell_images());
    v
}

/// Command-line fragments of living-off-the-land, download and bypass use.
pub open spec fn suspicious_patterns() -> Seq<&'static str> {
    seq![
        "iex",
        "invoke-expression",
        "downloadstring",
        "downloadfile",
        "-encodedcommand",
        "-enc ",
        "bypass",
        "invoke-webrequest",
        "certutil -decode",
        "certutil -urlcache",
        "bitsadmin /transfer",
        "regsvr32 /s /u /i:",
        "mshta http",
        "rundll32 javascript:",
    ]
}

pub fn suspicious_pattern_list() -> (r: Vec<&'static str>)
    ensures
        r@ == suspicious_patterns(),
{
    let mut v: Vec<&'static str> = Vec::new();
    v.push("iex");
    v.push("invoke-expression");
    v.push("downloadstring");
    v.push("downloadfile");
    v.push("-encodedcommand");
    v.push("-enc ");
    v.push("bypass");
    v.push("invoke-webrequest");
    v.push("certutil -decode");
    v.push("certutil -urlcache");
    v.push("bitsadmin /transfer");
    v.push("regsvr32 /s /u /i:");
    v.push("mshta http");
    v.push("rundll32 javascript:");
    assert(v@ =~= suspicious_patterns());
    v
}

/// Fragments that escalate even for a signed process.
pub open spec fn high_confidence_patterns() -> Seq<&'static str> {
    seq![
        "-encodedcommand",
        "-enc ",
        "downloadstring",
        "downloadfile",
        "certutil -decode",
        "certutil -urlcache",
        "bitsadmin /transfer",
    ]
}

pub fn high_confidence_list() -> (r: Vec<&'static str>)
    ensures
        r@ == high_confidence_patterns(),
{
    let mut v: Vec<&'static str> = Vec::new();
    v.push("-encodedcommand");
    v.push("-enc ");
    v.push("downloadstring");
    v.push("downloadfile");
    v.push("certutil -decode");
    v.push("certutil -urlcache");
    v.push("bitsadmin /transfer");
    assert(v@ =~= high_confidence_patterns());
    v
}

/// Fragments of attempts to disable or tamper with the security product.
pub open spec fn defender_patterns() -> Seq<&'static str> {
    seq![
        "set-mppreference",
        "disablerealtimemonitoring",
        "disable-realtimemonitoring",
        "stop-service windefend",
        "sc stop windefend",
        "remove-mppreference",
        "mpcmdrun -disable",
        "tamper",
        "uninstall-windowsfeature windows-defender",
        "disable-windowsdefender",
    ]
}

pub fn defender_pattern_list() -> (r: Vec<&'static str>)
    ensures
        r@ == defender_patterns(),
{
    let mut v: Vec<&'static str> = Vec::new();
    v.push("set-mppreference");
    v.push("disablerealtimemonitoring");
    v.push("disable-realtimemonitoring");
    v.push("stop-service windefend");
    v.push("sc stop windefend");
    v.push("remove-mppreference");
    v.push("mpcmdrun -disable");
    v.push("tamper");
    v.push("uninstall-windowsfeature windows-defender");
    v.push("disable-windowsdefender");
    assert(v@ =~= defender_patterns());
    v
}

/// Chat-webhook URL fragments.
pub open spec fn webhook_patterns() -> Seq<&'static str> {
    seq![
        "discord.com/api/webhooks",
        "discordapp.com/api/webhooks",
    ]
}

pub fn webhook_pattern_list() -> (r: Vec<&'static str>)
    ensures
        r@ == webhook_patterns(),
{
    let mut v: Vec<&'static str> = Vec::new();
    v.push("discord.com/api/webhooks");
    v.push("discordapp.com/api/webhooks");
    assert(v@ =~= webhook_patterns());
    v
}

/// User-writable directories where an unsigned networked process is suspect.
pub open spec fn keylogger_locations() -> Seq<&'static str> {
    seq![
        "\\temp\\",
        "\\appdata\\local\\temp\\",
        "\\downloads\\",
        "\\public\\",
        "\\users\\public\\",
    ]
}

pub fn keylogger_location_list() -> (r: Vec<&'static str>)
    ensures
        r@ == keylogger_locations(),
{
    let mut v: Vec<&'static str> = Vec::new();
    v.push("\\temp\\");
    v.push("\\appdata\\local\\temp\\");
    v.push("\\downloads\\");
    v.push("\\public\\");
    v.push("\\users\\public\\");
    assert(v@ =~= keylogger_locations());
    v
}

/// Remote addresses that name the local machine.
pub open spec fn loopback_names() -> Seq<&'static str> {
    seq![
        "127.0.0.1",
        "[::1]",
        "localhost",
    ]
}

pub fn loopback_name_list() -> (r: Vec<&'static str>)
    ensures
        r@ == loopback_names(),
{
    let mut v: Vec<&'static str> = Vec::new();
    v.push("127.0.0.1");
    v.push("[::1]");
    v.push("localhost");
    assert(v@ =~= loopback_names());
    v
}

/// Command-line fragments of a script invocation.
pub open spec fn script_markers() -> Seq<&'static str> {
    seq![
        "-file",
        "-encodedcommand",
        "-enc ",
    ]
}

pub fn script_marker_list() -> (r: Vec<&'static str>)
    ensures
        r@ == script_markers(),
{
    let mut v: Vec<&'static str> = Vec::new();
    v.push("-file");
    v.push("-encodedcommand");
    v.push("-enc ");
    assert(v@ =~= script_markers());
    v
}

/// Command-line fragments of an explicit web or exfiltration call.
pub open spec fn exfil_markers() -> Seq<&'static str> {
    seq![
        "invoke-webrequest",
        "discord.com/api/webhooks",
        "send-todiscord",
    ]
}

pub fn exfil_marker_list() -> (r: Vec<&'static str>)
    ensures
        r@ == exfil_markers(),
{
    let mut v: Vec<&'static str> = Vec::new();
    v.push("invoke-webrequest");
    v.push("discord.com/api/webhooks");
    v.push("send-todiscord");
    assert(v@ =~= exfil_markers());
    v
}

/// Common legitimate executables that never raise the unsigned-network alert.
pub open spec fn allowed_images() -> Seq<&'static str> {
    seq![
        "chrome.exe",
        "firefox.exe",
        "msedge.exe",
        "msedgewebview2.exe",
        "iexplore.exe",
        "teams.exe",
        "slack.exe",
        "discord.exe",
        "zoom.exe",
        "skype.exe",
        "onedrive.exe",
        "outlook.exe",
        "svchost.exe",
        "backgroundtaskhost.exe",
        "runtimebroker.exe",
        "searchprotocolhost.exe",
        "systemsettings.exe",
        "code.exe",
        "devenv.exe",
        "rider.exe",
        "idea.exe",
        "explorer.exe",
        "dwm.exe",
        "csrss.exe",
        "lsass.exe",
        "services.exe",
        "audiodg.exe",
        "conhost.exe",
        "taskhostw.exe",
        "spoolsv.exe",
        "applicationframehost.exe",
        "xaml.exe",
        "smartscreen.exe",
        "steam.exe",
        "epic games launcher.exe",
        "spotify.exe",
        "dropbox.exe",
    ]
}

pub fn allowed_image_list() -> (r: Vec<&'static str>)
    ensures
        r@ == allowed_images(),
{
    let mut v: Vec<&'static str> = Vec::new();
    v.push("chrome.exe");
    v.push("firefox.exe");
    v.push("msedge.exe");
    v.push("msedgewebview2.exe");
    v.push("iexplore.exe");
    v.push("teams.exe");
    v.push("slack.exe");
    v.push("discord.exe");
    v.push("zoom.exe");
    v.push("skype.exe");
    v.push("onedrive.exe");
    v.push("outlook.exe");
    v.push("svchost.exe");
    v.push("backgroundtaskhost.exe");
    v.push("runtimebroker.exe");
    v.push("searchprotocolhost.exe");
    v.push("systemsettings.exe");
    v.push("code.exe");
    v.push("devenv.exe");
    v.push("rider.exe");
    v.push("idea.exe");
    v.push("explorer.exe");
    v.push("dwm.exe");
    v.push("csrss.exe");
    v.push("lsass.exe");
    v.push("services.exe");
    v.push("audiodg.exe");
    v.push("conhost.exe");
    v.push("taskhostw.exe");
    v.push("spoolsv.exe");
    v.push("applicationframehost.exe");
    v.push("xaml.exe");
    v.push("smartscreen.exe");
    v.push("steam.exe");
    v.push("epic games launcher.exe");
    v.push("spotify.exe");
    v.push("dropbox.exe");
    assert(v@ =~= allowed_images());
    v
}

/// Directories from which an unsigned networked process is reported.
pub open spec fn staging_dirs() -> Seq<&'static str> {
    seq![
        "\\windows\\temp\\",
        "\\windows\\tasks\\",
        "\\windows\\debug\\",
        "\\users\\public\\",
    ]
}

pub fn staging_dir_list() -> (r: Vec<&'static str>)
    ensures
        r@ == staging_dirs(),
{
    let mut v: Vec<&'static str> = Vec::new();
    v.push("\\windows\\temp\\");
    v.push("\\windows\\tasks\\");
    v.push("\\windows\\debug\\");
    v.push("\\users\\public\\");
    assert(v@ =~= staging_dirs());
    v
}

/// Script contents that point at keylogging or exfiltration, for scripts run from another drive.
pub open spec fn drive_script_indicators() -> Seq<&'static str> {
    seq![
        "getasynckeystate",
        "add-type",
        "invoke-webrequest",
        "discord.com/api/webhooks",
        "send-todiscord",
        "get-content",
        "start-keylogger",
    ]
}

pub fn drive_script_indicator_list() -> (r: Vec<&'static str>)
    ensures
        r@ == drive_script_indicators(),
{
    let mut v: Vec<&'static str> = Vec::new();
    v.push("getasynckeystate");
    v.push("add-type");
    v.push("invoke-webrequest");
    v.push("discord.com/api/webhooks");
    v.push("send-todiscord");
    v.push("get-content");
    v.push("start-keylogger");
    assert(v@ =~= drive_script_indicators());
    v
}

/// Script contents that point at keylogging or exfiltration, for scripts run from a suspicious path.
pub open spec fn path_script_indicators() -> Seq<&'static str> {
    seq![
        "getasynckeystate",
        "add-type",
        "invoke-webrequest",
        "discord.com/api/webhooks",
        "send-todiscord",
    ]
}

pub fn path_script_indicator_list() -> (r: Vec<&'static str>)
    ensures
        r@ == path_script_indicators(),
{
    let mut v: Vec<&'static str> = Vec::new();
    v.push("getasynckeystate");
    v.push("add-type");
    v.push("invoke-webrequest");
    v.push("discord.com/api/webhooks");
    v.push("send-todiscord");
    assert(v@ =~= path_script_indicators());
    v
}

/// Script path fragments of removable, temporary or user-writable storage.
pub open spec fn suspicious_fragments() -> Seq<&'static str> {
    seq![
        "circuitpy",
        "removable",
        "usb",
        "temp",
        "appdata",
        "downloads",
        "public",
    ]
}

pub fn suspicious_fragment_list() -> (r: Vec<&'static str>)
    ensures
        r@ == suspicious_fragments(),
{
    let mut v: Vec<&'static str> = Vec::new();
    v.push("circuitpy");
    v.push("removable");
    v.push("usb");
    v.push("temp");
    v.push("appdata");
    v.push("downloads");
    v.push("public");
    assert(v@ =~= suspicious_fragments());
    v
}

} // verus!
