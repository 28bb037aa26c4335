use dioprocess::handles::{
    get_handle_type_category, get_object_type_name, next_handle_query, parse_handle_table,
    QueryNext, HANDLE_BUFFER_CAP, HANDLE_BUFFER_INITIAL, STATUS_INFO_LENGTH_MISMATCH,
};
use dioprocess::memory::{
    capped_read_size, format_ascii_line, format_hex_line, get_memory_protect_name, get_memory_state_name, get_memory_type_name,
    next_region_address,
};
use dioprocess::network::{
    get_network_connections, ip_to_string, port_from_network, Protocol, TcpState,
};
use dioprocess::process::ProcessRecord;

fn entry64(pid: u16, kind: u8, handle: u16, access: u32) -> Vec<u8> {
    let mut e = vec![0u8; 24];
    e[0..2].copy_from_slice(&pid.to_le_bytes());
    e[4] = kind;
    e[6..8].copy_from_slice(&handle.to_le_bytes());
    e[16..20].copy_from_slice(&access.to_le_bytes());
    e
}

#[test]
fn handle_query_doubles_until_cap() {
    let mut size = HANDLE_BUFFER_INITIAL;
    let mut attempts = 1;
    loop {
        match next_handle_query(size, STATUS_INFO_LENGTH_MISMATCH) {
            QueryNext::Retry(n) => {
                assert_eq!(n, size * 2);
                size = n;
                attempts += 1;
            }
            QueryNext::GiveUp => break,
            QueryNext::Parse => panic!("a refused query cannot be parsed"),
        }
    }
    assert_eq!(size, HANDLE_BUFFER_CAP);
    assert_eq!(attempts, 11);
    assert_eq!(next_handle_query(HANDLE_BUFFER_INITIAL, 0), QueryNext::Parse);
    assert_eq!(next_handle_query(HANDLE_BUFFER_INITIAL, 0xC000_0005), QueryNext::GiveUp);
}

#[test]
fn handle_query_for_a_table_that_fits() {
    // a table needing 3 MiB is reached on the seventh query (64 KiB * 2^6 = 4 MiB)
    let required = 3 * 1024 * 1024;
    let mut size = HANDLE_BUFFER_INITIAL;
    let mut attempts = 1;
    loop {
        let status = if size < required { STATUS_INFO_LENGTH_MISMATCH } else { 0 };
        match next_handle_query(size, status) {
            QueryNext::Retry(n) => {
                size = n;
                attempts += 1;
            }
            QueryNext::GiveUp => panic!("gave up below the cap"),
            QueryNext::Parse => break,
        }
    }
    assert_eq!(attempts, 7);
}

#[test]
fn handle_table_is_filtered_by_pid() {
    let mut buf = vec![0u8; 8];
    buf[0..4].copy_from_slice(&3u32.to_le_bytes());
    buf.extend(entry64(10, 7, 0x44, 0x1F_FFFF));
    buf.extend(entry64(11, 35, 0x48, 0x12_0089));
    buf.extend(entry64(10, 43, 0x4C, 0x2_0019));
    let hs = parse_handle_table(&buf, 10, true);
    assert_eq!(hs.len(), 2);
    assert_eq!(hs[0].handle_value, 0x44);
    assert_eq!(hs[0].object_type_index, 7);
    assert_eq!(hs[0].object_type_name, "Process");
    assert_eq!(hs[0].granted_access, 0x1F_FFFF);
    assert_eq!(hs[1].object_type_name, "Key");
    // a count larger than the buffer stops at the last whole entry
    buf[0..4].copy_from_slice(&100u32.to_le_bytes());
    assert_eq!(parse_handle_table(&buf, 10, true).len(), 2);
    assert!(parse_handle_table(&buf[..3], 10, true).is_empty());
}

#[test]
fn handle_table_32_bit_layout() {
    let mut buf = vec![0u8; 4];
    buf[0..4].copy_from_slice(&1u32.to_le_bytes());
    let mut e = vec![0u8; 16];
    e[0..2].copy_from_slice(&9u16.to_le_bytes());
    e[4] = 15;
    e[6..8].copy_from_slice(&0x10u16.to_le_bytes());
    e[12..16].copy_from_slice(&0x1F0003u32.to_le_bytes());
    buf.extend(e);
    let hs = parse_handle_table(&buf, 9, false);
    assert_eq!(hs.len(), 1);
    assert_eq!(hs[0].object_type_name, "Event");
    assert_eq!(hs[0].granted_access, 0x1F0003);
}

#[test]
fn object_type_names_and_categories() {
    assert_eq!(get_object_type_name(0), "Reserved");
    assert_eq!(get_object_type_name(45), "ALPC Port");
    assert_eq!(get_object_type_name(60), "DxgkSharedSwapChainObject");
    assert_eq!(get_object_type_name(61), "Unknown");
    assert_eq!(get_handle_type_category("File"), "file");
    assert_eq!(get_handle_type_category("Key"), "registry");
    assert_eq!(get_handle_type_category("Job"), "process");
    assert_eq!(get_handle_type_category("Timer"), "sync");
    assert_eq!(get_handle_type_category("Section"), "memory");
    assert_eq!(get_handle_type_category("Token"), "security");
    assert_eq!(get_handle_type_category("ALPC Port"), "ipc");
    assert_eq!(get_handle_type_category("SymbolicLink"), "namespace");
    assert_eq!(get_handle_type_category("Desktop"), "other");
    assert_eq!(get_handle_type_category(""), "other");
}

#[test]
fn region_walk_advances_strictly() {
    assert_eq!(next_region_address(0, 0x1000), Some(0x1000));
    assert_eq!(next_region_address(0x1000, 0), None);
    assert_eq!(next_region_address(usize::MAX - 0xFFF, 0x1000), None);
    // a walk over synthetic sizes, one of them zero, stops there and never repeats
    let sizes = [0x1000usize, 0x2000, 0, 0x1000];
    let mut address = 0usize;
    let mut seen = Vec::new();
    for s in sizes {
        seen.push(address);
        match next_region_address(address, s) {
            Some(n) => address = n,
            None => break,
        }
    }
    assert_eq!(seen, vec![0, 0x1000, 0x3000]);
}

#[test]
fn reads_are_capped() {
    assert_eq!(capped_read_size(16), 16);
    assert_eq!(capped_read_size(1 << 20), 1 << 20);
    assert_eq!(capped_read_size(5 << 20), 1 << 20);
}

#[test]
fn memory_names() {
    assert_eq!(get_memory_state_name(0x1000), "Commit");
    assert_eq!(get_memory_state_name(0x2000), "Reserve");
    assert_eq!(get_memory_state_name(0x10000), "Free");
    assert_eq!(get_memory_state_name(3), "Unknown");
    assert_eq!(get_memory_type_name(0x20000), "Private");
    assert_eq!(get_memory_type_name(0x40000), "Mapped");
    assert_eq!(get_memory_type_name(0x1000000), "Image");
    assert_eq!(get_memory_type_name(0), "-");
    assert_eq!(get_memory_type_name(5), "Unknown");
    assert_eq!(get_memory_protect_name(0), "-");
    assert_eq!(get_memory_protect_name(0x04), "ReadWrite");
    assert_eq!(get_memory_protect_name(0x104), "ReadWrite + Guard");
    assert_eq!(get_memory_protect_name(0x640), "ExecuteReadWrite + NoCache + WriteCombine");
    assert_eq!(get_memory_protect_name(0x03), "Unknown");
}

fn record(pid: u32, name: &str, path: &str) -> ProcessRecord {
    ProcessRecord { pid, name: name.to_string(), working_set_bytes: 0, thread_count: 1, exe_path: path.to_string() }
}

#[test]
fn addresses_and_ports() {
    assert_eq!(ip_to_string(0x0100_007F), "127.0.0.1");
    assert_eq!(ip_to_string(0), "0.0.0.0");
    assert_eq!(ip_to_string(0xFFFF_FFFF), "255.255.255.255");
    assert_eq!(port_from_network(0x5000), 80);
    assert_eq!(port_from_network(0xBB01), 443);
    assert_eq!(TcpState::from_code(5), TcpState::Established);
    assert_eq!(TcpState::from_code(0), TcpState::Unknown);
    assert_eq!(TcpState::from_code(4).label(), "SYN_RECV");
    assert_eq!(Protocol::Udp.label(), "UDP");
}

#[test]
fn connection_tables_are_joined_with_processes() {
    let mut tcp = 1u32.to_le_bytes().to_vec();
    for v in [2u32, 0x0100_007F, 0x5000, 0, 0, 42] {
        tcp.extend(v.to_le_bytes());
    }
    let mut udp = 2u32.to_le_bytes().to_vec();
    for v in [0u32, 0x3500, 7, 0x0101_A8C0, 0x3500, 42] {
        udp.extend(v.to_le_bytes());
    }
    let procs = vec![record(42, "svc.exe", "C:\\svc.exe")];
    let conns = get_network_connections(&tcp, &udp, &procs);
    assert_eq!(conns.len(), 3);
    assert_eq!(conns[0].protocol, Protocol::Tcp);
    assert_eq!(conns[0].local_addr, "127.0.0.1");
    assert_eq!(conns[0].local_port, 80);
    assert_eq!(conns[0].state, Some(TcpState::Listen));
    assert_eq!(conns[0].process_name, "svc.exe");
    assert_eq!(conns[0].exe_path, "C:\\svc.exe");
    assert_eq!(conns[1].protocol, Protocol::Udp);
    assert_eq!(conns[1].local_port, 53);
    assert_eq!(conns[1].pid, 7);
    assert_eq!(conns[1].process_name, "PID 7");
    assert_eq!(conns[1].exe_path, "");
    assert_eq!(conns[1].state, None);
    assert_eq!(conns[2].local_addr, "192.168.1.1");
    assert_eq!(conns[2].process_name, "svc.exe");
    assert!(get_network_connections(&[], &[1, 0], &procs).is_empty());
}

#[test]
fn dump_lines() {
    let bytes: Vec<u8> = (0x41u8..0x51).collect();
    assert_eq!(
        format_hex_line(&bytes),
        "41 42 43 44 45 46 47 48  49 4A 4B 4C 4D 4E 4F 50"
    );
    assert_eq!(format_hex_line(&[0xAB, 0x0C]), format!("AB 0C{}", " ".repeat(43)));
    let long: Vec<u8> = (0u8..17).collect();
    assert!(format_hex_line(&long).ends_with("0F 10"));
    assert_eq!(format_ascii_line(&[0x41, 0x00, 0x7E, 0x7F, 0x20]), "A.~. ");
    assert_eq!(format_ascii_line(&[]), "");
}
