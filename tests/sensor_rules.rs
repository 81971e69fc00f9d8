use custom_edr::rules::{
    detect_defender_disable_by_cmdline, detect_discord_webhook_in_cmdline, detect_office_powershell,
    detect_possible_keylogger, detect_powershell_hidden_from_removable, detect_powershell_network_exfil,
    detect_suspicious_cmdline, detect_unsigned_network, hidden_script_launch, script_read_path,
    unsigned_network_at, NetCounter, ScriptOrigin,
};
use custom_edr::shared::{NetworkEvent, ProcessEvent};

fn process(image: &str, parent: &str, cmd: &str, signed: bool) -> ProcessEvent {
    ProcessEvent {
        timestamp: "2024-05-01T10:00:00+00:00".to_string(),
        pid: 4242,
        parent_pid: 100,
        image: image.to_string(),
        parent_image: parent.to_string(),
        command_line: cmd.to_string(),
        is_signed: signed,
    }
}

fn connection(pid: u32, remote: &str, port: u16) -> NetworkEvent {
    NetworkEvent {
        timestamp: "2024-05-01T10:00:01+00:00".to_string(),
        pid,
        protocol: "TCP".to_string(),
        local_addr: "10.0.0.2:50000".to_string(),
        remote_addr: remote.to_string(),
        remote_port: port,
    }
}

#[test]
fn encoded_command_fires_even_when_signed() {
    let e = process("C:\\Windows\\powershell.exe", "C:\\Windows\\explorer.exe", "powershell -enc SGVsbG8=", true);
    let a = detect_suspicious_cmdline(&e).expect("high-confidence pattern must fire");
    assert_eq!(a.severity, "HIGH");
    assert_eq!(a.rule, "Suspicious command line detected");
    assert_eq!(a.details.as_deref(), Some("Detected suspicious pattern: -enc "));
    assert_eq!(a.command_line.as_deref(), Some("powershell -enc SGVsbG8="));
}

#[test]
fn bare_iex_is_ignored_for_signed_process() {
    let e = process("C:\\tools\\app.exe", "C:\\Windows\\explorer.exe", "app.exe IEX stuff", true);
    assert!(detect_suspicious_cmdline(&e).is_none());
    let unsigned = process("C:\\tools\\app.exe", "C:\\Windows\\explorer.exe", "app.exe IEX stuff", false);
    let a = detect_suspicious_cmdline(&unsigned).unwrap();
    assert_eq!(a.details.as_deref(), Some("Detected suspicious pattern: iex"));
}

#[test]
fn office_spawning_shell_is_reported() {
    let e = process(
        "C:\\Windows\\System32\\WindowsPowerShell\\v1.0\\PowerShell.exe",
        "C:\\Program Files\\Microsoft Office\\WINWORD.EXE",
        "powershell -nop",
        false,
    );
    let a = detect_office_powershell(&e).unwrap();
    assert_eq!(a.rule, "Office spawned PowerShell");
    assert_eq!(a.details.as_deref(), Some("Office application spawned PowerShell. PID: 4242, Parent PID: 100"));
    let quiet = process("C:\\x\\powershell.exe", "C:\\x\\excel.exe", "Unknown", true);
    assert!(detect_office_powershell(&quiet).is_none());
    let absent = process("C:\\x\\powershell.exe", "C:\\x\\excel.exe", "", true);
    assert!(detect_office_powershell(&absent).is_none());
    let unsigned_absent = process("C:\\x\\powershell.exe", "C:\\x\\excel.exe", "", false);
    assert!(detect_office_powershell(&unsigned_absent).is_some());
    let other = process("C:\\x\\cmd.exe", "C:\\x\\excel.exe", "cmd", false);
    assert!(detect_office_powershell(&other).is_none());
}

#[test]
fn defender_tampering_reports_first_pattern() {
    let e = process("C:\\x\\powershell.exe", "p", "Set-MpPreference -DisableRealtimeMonitoring $true", true);
    let a = detect_defender_disable_by_cmdline(&e).unwrap();
    assert_eq!(a.details.as_deref(), Some("Command matched defender-disable pattern: set-mppreference"));
    let clean = process("C:\\x\\powershell.exe", "p", "Get-Date", true);
    assert!(detect_defender_disable_by_cmdline(&clean).is_none());
}

#[test]
fn webhook_in_command_line() {
    let e = process("C:\\x\\curl.exe", "p", "curl https://Discord.com/api/webhooks/1/abc", true);
    let a = detect_discord_webhook_in_cmdline(&e).unwrap();
    assert_eq!(a.rule, "Discord webhook exfiltration detected");
    let clean = process("C:\\x\\curl.exe", "p", "curl https://example.com", true);
    assert!(detect_discord_webhook_in_cmdline(&clean).is_none());
}

#[test]
fn keylogger_location_with_network() {
    let e = process("C:\\Users\\Bob\\Downloads\\kl.exe", "p", "", false);
    let a = detect_possible_keylogger(&e, &connection(4242, "8.8.8.8", 443)).unwrap();
    assert_eq!(
        a.details.as_deref(),
        Some("Process from suspicious directory with network activity. Remote: 8.8.8.8:443")
    );
    assert!(detect_possible_keylogger(&e, &connection(1, "8.8.8.8", 443)).is_none());
    assert!(detect_possible_keylogger(&e, &connection(4242, "127.0.0.1", 443)).is_none());
    assert!(detect_possible_keylogger(&e, &connection(4242, "192.168.1.20", 443)).is_none());
    let signed = process("C:\\Users\\Bob\\Downloads\\kl.exe", "p", "", true);
    assert!(detect_possible_keylogger(&signed, &connection(4242, "8.8.8.8", 443)).is_none());
}

#[test]
fn shell_exfiltration_needs_external_host() {
    let e = process("C:\\x\\pwsh.exe", "p", "pwsh -File C:\\s.ps1", true);
    let a = detect_powershell_network_exfil(&e, &connection(4242, "1.2.3.4", 80)).unwrap();
    assert_eq!(
        a.details.as_deref(),
        Some("PowerShell PID 4242 connected to 1.2.3.4:80 shortly after script launch")
    );
    assert!(detect_powershell_network_exfil(&e, &connection(4242, "localhost", 80)).is_none());
    assert!(detect_powershell_network_exfil(&e, &connection(7, "1.2.3.4", 80)).is_none());
    let plain = process("C:\\x\\pwsh.exe", "p", "pwsh", true);
    assert!(detect_powershell_network_exfil(&plain, &connection(4242, "1.2.3.4", 80)).is_none());
}

fn hidden_launch_event() -> ProcessEvent {
    process("C:\\Windows\\powershell.exe", "p", "-WindowStyle Hidden -File D:\\payload.ps1", true)
}

#[test]
fn hidden_script_with_keylogging_indicator() {
    let e = hidden_launch_event();
    let launch = hidden_script_launch(&e).unwrap();
    assert_eq!(launch.origin, ScriptOrigin::Drive('d'));
    assert_eq!(launch.script, "d:\\payload.ps1");
    assert_eq!(script_read_path(&launch), "d:\\payload.ps1");
    let script = "Add-Type ...\n$k = [Win32]::GetAsyncKeyState(65)".to_string();
    let a = detect_powershell_hidden_from_removable(&e, Some(script)).unwrap();
    assert_eq!(a.rule, "PowerShell executed hidden from non-system drive");
    assert_eq!(a.details.as_deref(), Some("Script d:\\payload.ps1 contains indicator: getasynckeystate"));
}

#[test]
fn hidden_script_unreadable_still_fires() {
    let e = hidden_launch_event();
    let a = detect_powershell_hidden_from_removable(&e, None).unwrap();
    assert_eq!(
        a.details.as_deref(),
        Some("Hidden PowerShell -File from drive d detected: d:\\payload.ps1 (script unreadable)")
    );
    let clean = detect_powershell_hidden_from_removable(&e, Some("Write-Host hi".to_string())).unwrap();
    assert_eq!(
        clean.details.as_deref(),
        Some("Hidden PowerShell -File from drive d detected: d:\\payload.ps1 (script scanned, no explicit indicator found)")
    );
}

#[test]
fn hidden_script_from_temp_path_on_system_drive() {
    let e = process(
        "C:\\Windows\\powershell.exe",
        "p",
        "powershell -WindowStyle Hidden -File \"C:/Users/x/AppData/Local/Temp/run.ps1\"",
        false,
    );
    let launch = hidden_script_launch(&e).unwrap();
    assert_eq!(launch.origin, ScriptOrigin::SuspiciousPath);
    assert_eq!(launch.script, "c:/users/x/appdata/local/temp/run.ps1");
    assert_eq!(script_read_path(&launch), "c:\\users\\x\\appdata\\local\\temp\\run.ps1");
    let a = detect_powershell_hidden_from_removable(&e, None).unwrap();
    assert_eq!(a.rule, "PowerShell executed hidden from suspicious path");
    let visible = process("C:\\Windows\\powershell.exe", "p", "powershell -File D:\\x.ps1", false);
    assert!(hidden_script_launch(&visible).is_none());
}

#[test]
fn unsigned_network_fires_on_third_connection_and_resets() {
    let p = process("C:\\Windows\\Temp\\dropper.exe", "p", "", false);
    let net = connection(4242, "8.8.8.8", 443);
    let mut counter = NetCounter::new();
    let now = 1_714_557_610_000i64;
    let start = Some(1_714_557_600_000i64);
    assert!(unsigned_network_at(&p, &net, "c:\\windows\\temp\\dropper.exe", start, now, &mut counter).is_none());
    assert!(unsigned_network_at(&p, &net, "c:\\windows\\temp\\dropper.exe", start, now, &mut counter).is_none());
    let a = unsigned_network_at(&p, &net, "c:\\windows\\temp\\dropper.exe", start, now, &mut counter).unwrap();
    assert_eq!(a.severity, "LOW");
    assert_eq!(a.details.as_deref(), Some("Unsigned process made repeated external connections to 8.8.8.8:443"));
    assert!(counter.counts.get(&4242).is_none());
}

#[test]
fn unsigned_network_skips_old_and_allowed_processes() {
    let p = process("C:\\Windows\\Temp\\dropper.exe", "p", "", false);
    let net = connection(4242, "8.8.8.8", 443);
    let mut counter = NetCounter::new();
    let start = Some(1_714_557_600_000i64);
    let late = 1_714_557_600_000i64 + 120_500;
    for _ in 0..4 {
        assert!(unsigned_network_at(&p, &net, "c:\\windows\\temp\\dropper.exe", start, late, &mut counter).is_none());
    }
    assert!(counter.counts.is_empty());
    let chrome = process("C:\\Users\\Public\\chrome.exe", "p", "", false);
    for _ in 0..4 {
        assert!(unsigned_network_at(&chrome, &net, "c:\\users\\public\\chrome.exe", start, start.unwrap(), &mut counter).is_none());
    }
    assert_eq!(counter.counts.get(&4242), Some(&4));
    let mut edge = NetCounter::new();
    let young = 1_714_557_600_000i64 + 119_999;
    for _ in 0..2 {
        assert!(unsigned_network_at(&p, &net, "c:\\windows\\temp\\dropper.exe", start, young, &mut edge).is_none());
    }
    assert!(unsigned_network_at(&p, &net, "c:\\windows\\temp\\dropper.exe", start, young, &mut edge).is_some());
    let mut loop_counter = NetCounter::new();
    for remote in ["127.0.0.5", "localhost", "[::1]"] {
        let local = connection(4242, remote, 80);
        assert!(unsigned_network_at(&p, &local, "c:\\windows\\temp\\dropper.exe", start, young, &mut loop_counter).is_none());
    }
    assert!(loop_counter.counts.is_empty());
    let mut fresh = NetCounter::new();
    let stale = process("C:\\Windows\\Temp\\dropper.exe", "p", "", false);
    assert!(detect_unsigned_network(&stale, &net, &mut fresh).is_none());
}
