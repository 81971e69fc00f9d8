use custom_edr::collect::{
    connection_key, endpoint_key, KeySet, has_process, insert_if_missing, parse_netstat_line, push_bounded, record_process,
    BUFFER_CAPACITY,
};
use custom_edr::etw::{is_ignored_record, port_from_table, process_trace_event, tcpip_trace_event};
use custom_edr::events::{EventType, Protocol};
use custom_edr::netaddr::{ip_to_string, is_private_or_local};
use custom_edr::shared::ProcessEvent;
use custom_edr::userdata::extract_process_name_from_userdata;

#[test]
fn private_and_local_addresses() {
    assert!(is_private_or_local("127.0.0.1"));
    assert!(is_private_or_local("[::1]"));
    assert!(is_private_or_local(" localhost "));
    assert!(is_private_or_local("10.1.2.3"));
    assert!(is_private_or_local("192.168.1.5"));
    assert!(is_private_or_local("169.254.0.9"));
    assert!(is_private_or_local("172.16.0.1"));
    assert!(is_private_or_local("172.31.255.255"));
    assert!(!is_private_or_local("172.32.0.1"));
    assert!(!is_private_or_local("172.15.0.1"));
    assert!(!is_private_or_local("172.x.0.1"));
    assert!(!is_private_or_local("8.8.8.8"));
    assert!(!is_private_or_local(""));
}

#[test]
fn renders_table_addresses_and_ports() {
    assert_eq!(ip_to_string(0x0100_007f), "127.0.0.1");
    assert_eq!(ip_to_string(0x0801_a8c0), "192.168.1.8");
    assert_eq!(ip_to_string(0), "0.0.0.0");
    assert_eq!(port_from_table(0x5000), 80);
    assert_eq!(port_from_table(0xbb01), 443);
}

#[test]
fn reads_established_tcp_lines() {
    let e = parse_netstat_line("  TCP    10.0.0.2:50123     93.184.216.34:443      ESTABLISHED     4242").unwrap();
    assert_eq!(e.pid, 4242);
    assert_eq!(e.local, "10.0.0.2:50123");
    assert_eq!(e.local_port, 50123);
    assert_eq!(e.remote, "93.184.216.34:443");
    assert_eq!(e.remote_addr, "93.184.216.34");
    assert_eq!(e.remote_port, 443);
    assert_eq!(connection_key(&e), "4242-10.0.0.2:50123-93.184.216.34:443");
    let v6 = parse_netstat_line("TCP [::1]:5000 [::1]:49712 ESTABLISHED 12").unwrap();
    assert_eq!(v6.remote_addr, "[::1]");
    assert_eq!(v6.remote_port, 49712);
    let odd = parse_netstat_line("TCP a:1 host:http ESTABLISHED 9").unwrap();
    assert_eq!(odd.remote_port, 0);
}

#[test]
fn skips_other_table_lines() {
    assert!(parse_netstat_line("").is_none());
    assert!(parse_netstat_line("  Proto  Local Address  Foreign Address  State  PID").is_none());
    assert!(parse_netstat_line("TCP 0.0.0.0:135 0.0.0.0:0 LISTENING 1000").is_none());
    assert!(parse_netstat_line("UDP 0.0.0.0:500 *:* 4").is_none());
    assert!(parse_netstat_line("TCP 1.1.1.1:1 2.2.2.2:2 ESTABLISHED 0").is_none());
    assert!(parse_netstat_line("TCP 1.1.1.1:1 2.2.2.2:2 ESTABLISHED x").is_none());
    assert!(parse_netstat_line("TCP 1.1.1.1:1 nocolon ESTABLISHED 5").is_none());
}

fn proc(pid: u32, parent: u32, image: &str) -> ProcessEvent {
    ProcessEvent {
        timestamp: "t".to_string(),
        pid,
        parent_pid: parent,
        image: image.to_string(),
        parent_image: "Unknown".to_string(),
        command_line: String::new(),
        is_signed: false,
    }
}

#[test]
fn buffers_keep_newest_and_fill_parent_image() {
    let mut list: Vec<ProcessEvent> = Vec::new();
    assert!(record_process(&mut list, proc(1, 0, "C:\\explorer.exe")));
    assert!(record_process(&mut list, proc(2, 1, "C:\\cmd.exe")));
    assert!(!record_process(&mut list, proc(2, 1, "C:\\cmd.exe")));
    assert_eq!(list.len(), 2);
    assert_eq!(list[1].parent_image, "C:\\explorer.exe");
    assert!(record_process(&mut list, proc(3, 99, "C:\\x.exe")));
    assert_eq!(list[2].parent_image, "Unknown");
    assert!(has_process(&list, 2));
    assert!(!insert_if_missing(&mut list, proc(2, 0, "dup")));
    assert!(insert_if_missing(&mut list, proc(4, 0, "new")));
    let mut big: Vec<u32> = Vec::new();
    for k in 0..(BUFFER_CAPACITY as u32 + 5) {
        push_bounded(&mut big, k, BUFFER_CAPACITY);
    }
    assert_eq!(big.len(), BUFFER_CAPACITY);
    assert_eq!(big[0], 5);
    assert_eq!(*big.last().unwrap(), BUFFER_CAPACITY as u32 + 4);
}

#[test]
fn trace_records_become_events() {
    match process_trace_event(1234, 1, "notepad.exe".to_string()) {
        Some(EventType::ProcessStart(e)) => {
            assert_eq!(e.pid, 1234);
            assert_eq!(e.integrity_level, "Unknown");
        }
        _ => panic!("expected a start"),
    }
    assert!(matches!(process_trace_event(1234, 2, "notepad.exe".to_string()), Some(EventType::ProcessEnd(_))));
    assert!(process_trace_event(1234, 3, "notepad.exe".to_string()).is_none());
    assert!(process_trace_event(4, 1, "notepad.exe".to_string()).is_none());
    assert!(process_trace_event(1234, 1, "SvcHost.exe".to_string()).is_none());
    assert!(is_ignored_record(900, "MsMpEng SYSTEM helper"));
    let mut seen = KeySet::new();
    let mut event = |pid: u32, name: &str, remote: &str, port: u16| {
        tcpip_trace_event(&mut seen, pid, name.to_string(), "10.0.0.2".to_string(), 50000, remote.to_string(), port)
    };
    let n = event(555, "curl.exe", "93.184.216.34", 443).unwrap();
    assert_eq!(n.remote_address, "93.184.216.34");
    assert_eq!(n.remote_port, 443);
    assert_eq!(n.local_port, 50000);
    assert_eq!(n.protocol, Protocol::TCP);
    assert!(event(555, "curl.exe", "93.184.216.34", 443).is_none());
    assert!(event(555, "curl.exe", "93.184.216.34", 80).is_some());
    assert!(event(555, "services.exe", "1.1.1.1", 443).is_none());
}

fn utf16(s: &str) -> Vec<u8> {
    s.encode_utf16().flat_map(|u| u.to_le_bytes()).collect()
}

#[test]
fn finds_executable_in_trace_payload() {
    let mut data = vec![0u8, 0, 7, 0, 1, 2];
    data.extend(utf16("C:\\Windows\\System32\\notepad.exe -x"));
    data.extend([0u8, 0]);
    assert_eq!(extract_process_name_from_userdata(&data), "notepad.exe");
    let mut quoted = vec![9u8, 0];
    quoted.extend(utf16("\"C:\\Program Files\\App\\app.exe\" --flag"));
    assert_eq!(extract_process_name_from_userdata(&quoted), "app.exe");
    assert_eq!(extract_process_name_from_userdata(&utf16("tool.exe run")), "tool.exe");
    assert_eq!(extract_process_name_from_userdata(&utf16("hello world")), "Unknown");
    assert_eq!(extract_process_name_from_userdata(&[1, 2, 3]), "Unknown");
}

#[test]
fn key_sets_remember_and_reset() {
    let mut keys = KeySet::new();
    assert!(keys.insert("a"));
    assert!(!keys.insert("a"));
    assert!(keys.insert("b"));
    assert!(keys.contains("b"));
    keys.clear_if_over(2);
    assert_eq!(keys.len(), 2);
    assert!(keys.insert("c"));
    keys.clear_if_over(2);
    assert_eq!(keys.len(), 0);
    assert!(!keys.contains("a"));
    assert_eq!(endpoint_key(7, "10.0.0.2", 50000, "1.2.3.4", 443), "7-10.0.0.2-50000-1.2.3.4-443");
}
