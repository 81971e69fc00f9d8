//! Decisions made on each kernel trace record: which records become events.
use vstd::prelude::*;
use crate::events::{
    ConnectionState, EventType, NetworkDirection, NetworkEvent, Protocol, ProcessEvent,
    bare_process_event,
};
use crate::collect::{endpoint_key, endpoint_key_text, KeySet};
use crate::text::{any_contained, any_hit, chars_of, lower_of, lowercase};

verus! {

/// Trace opcode of a process start.
pub const OPCODE_PROCESS_START: u8 = 1;

/// Trace opcode of a process end.
pub const OPCODE_PROCESS_END: u8 = 2;

/// Name fragments of system services whose trace records are ignored.
pub open spec fn ignored_services() -> Seq<&'static str> {
    seq!["svchost", "system", "csrss", "wininit", "services"]
}

fn ignored_service_list() -> (r: Vec<&'static str>)
    ensures
        r@ == ignored_services(),
{
    let mut v: Vec<&'static str> = Vec::new();
    v.push("svchost");
    v.push("system");
    v.push("csrss");
    v.push("wininit");
    v.push("services");
    assert(v@ =~= ignored_services());
    v
}

/// A record of this process is ignored: a reserved pid or a system service.
pub open spec fn ignored_record(pid: u32, name: Seq<char>) -> bool {
    pid <= 4 || any_hit(lower_of(name), ignored_services())
}

/// Whether records of this process are ignored.
pub fn is_ignored_record(pid: u32, process_name: &str) -> (r: bool)
    ensures
        r == ignored_record(pid, process_name@),
{
    if pid <= 4 {
        return true;
    }
    let lower = lowercase(process_name);
    let h = chars_of(lower.as_str());
    any_contained(&h, &ignored_service_list())
}

/// The event that a kernel process record yields: a start for opcode 1, an
/// end for opcode 2, nothing for other opcodes or ignored processes.
pub fn process_trace_event(pid: u32, opcode: u8, process_name: String) -> (r: Option<EventType>)
    ensures
        ignored_record(pid, process_name@) ==> r is None,
        !ignored_record(pid, process_name@) ==> match r {
            Some(EventType::ProcessStart(e)) => opcode == OPCODE_PROCESS_START && e.pid == pid
                && e.parent_pid == 0 && e.process_name == process_name && bare_process_event(e)
                && e.exit_code is None,
            Some(EventType::ProcessEnd(e)) => opcode == OPCODE_PROCESS_END && e.pid == pid
                && e.parent_pid == 0 && e.process_name == process_name && bare_process_event(e)
                && e.exit_code is None,
            Some(_) => false,
            None => opcode != OPCODE_PROCESS_START && opcode != OPCODE_PROCESS_END,
        },
{
    if is_ignored_record(pid, process_name.as_str()) {
        return None;
    }
    if opcode == OPCODE_PROCESS_START {
        Some(EventType::ProcessStart(ProcessEvent::new_start(pid, 0, process_name)))
    } else if opcode == OPCODE_PROCESS_END {
        Some(EventType::ProcessEnd(ProcessEvent::new_end(pid, process_name, None)))
    } else {
        None
    }
}

/// The connection event that a TCP/IP trace record yields: an outbound TCP
/// connection between the record's endpoints, once per connection. Records
/// of ignored processes, and further records of a connection already in
/// `seen`, yield nothing; a new connection's key is added to `seen`.
pub fn tcpip_trace_event(
    seen: &mut KeySet,
    pid: u32,
    process_name: String,
    local_address: String,
    local_port: u16,
    remote_address: String,
    remote_port: u16,
) -> (r: Option<NetworkEvent>)
    ensures
        ({
            let key = endpoint_key_text(pid, local_address@, local_port, remote_address@, remote_port);
            &&& ignored_record(pid, process_name@) ==> r is None && final(seen)@ == old(seen)@
            &&& !ignored_record(pid, process_name@) ==> final(seen)@ == old(seen)@.insert(key)
            &&& !ignored_record(pid, process_name@) && old(seen)@.contains(key) ==> r is None
            &&& !ignored_record(pid, process_name@) && !old(seen)@.contains(key) ==> match r {
                Some(n) => n.pid == pid && n.process_name == process_name && n.direction
                    == NetworkDirection::Outbound && n.protocol == Protocol::TCP && n.local_address
                    == local_address && n.local_port == local_port && n.remote_address
                    == remote_address && n.remote_port == remote_port && n.bytes_sent == 0
                    && n.bytes_received == 0 && n.connection_state == ConnectionState::Established,
                None => false,
            }
        }),
{
    if is_ignored_record(pid, process_name.as_str()) {
        return None;
    }
    let key = endpoint_key(pid, local_address.as_str(), local_port, remote_address.as_str(), remote_port);
    if !seen.insert(key.as_str()) {
        return None;
    }
    Some(
        NetworkEvent::new(
            pid,
            process_name,
            NetworkDirection::Outbound,
            Protocol::TCP,
            local_address,
            local_port,
            remote_address,
            remote_port,
        ),
    )
}

/// A port number as the connection tables hold it, in network byte order in
/// the low 16 bits, turned to host order.
pub open spec fn host_port(raw: u32) -> u16 {
    (((raw / 256) % 256) + (raw % 256) * 256) as u16
}

/// Turns a port from the connection tables into host order.
pub fn port_from_table(raw: u32) -> (r: u16)
    ensures
        r == host_port(raw),
{
    let hi: u32 = (raw / 256) % 256;
    let lo: u32 = raw % 256;
    (hi + lo * 256) as u16
}

} // verus!
