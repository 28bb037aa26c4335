use dioprocess::process::{module_record, process_record, threads_of, ThreadEntry};
use dioprocess::{format_uptime, get_priority_name, random_title};

fn wide(s: &str, len: usize) -> Vec<u16> {
    let mut v: Vec<u16> = s.encode_utf16().collect();
    v.resize(len, 0);
    v
}

#[test]
fn uptime_text() {
    assert_eq!(format_uptime(0), "0m");
    assert_eq!(format_uptime(59), "0m");
    assert_eq!(format_uptime(3600), "1h 0m");
    assert_eq!(format_uptime(90061), "1d 1h 1m");
    assert_eq!(format_uptime(86400 * 12 + 60 * 5), "12d 0h 5m");
}

#[test]
fn priority_names() {
    assert_eq!(get_priority_name(-15), "Idle");
    assert_eq!(get_priority_name(-2), "Lowest");
    assert_eq!(get_priority_name(-1), "Below Normal");
    assert_eq!(get_priority_name(0), "Normal");
    assert_eq!(get_priority_name(1), "Above Normal");
    assert_eq!(get_priority_name(2), "Highest");
    assert_eq!(get_priority_name(15), "Time Critical");
    assert_eq!(get_priority_name(7), "Unknown");
}

#[test]
fn inaccessible_processes_still_get_records() {
    let snapshot = [(4u32, "System", 200u32), (88, "Registry", 4), (1234, "app.exe", 9)];
    let records: Vec<_> = snapshot
        .iter()
        .map(|(pid, name, threads)| process_record(*pid, &wide(name, 260), *threads, None, None))
        .collect();
    assert_eq!(records.len(), 3);
    for (r, (pid, name, threads)) in records.iter().zip(snapshot.iter()) {
        assert_eq!(r.pid, *pid);
        assert_eq!(r.name, *name);
        assert_eq!(r.thread_count, *threads);
        assert_eq!(r.working_set_bytes, 0);
        assert_eq!(r.exe_path, "");
    }
}

#[test]
fn accessible_process_record() {
    let path: Vec<u16> = "C:\\app.exe".encode_utf16().collect();
    let r = process_record(7, &wide("app.exe", 260), 3, Some(4096), Some(&path));
    assert_eq!(r.name, "app.exe");
    assert_eq!(r.working_set_bytes, 4096);
    assert_eq!(r.exe_path, "C:\\app.exe");
    // a name filling its whole buffer has no terminator
    let full = wide("abcd", 4);
    assert_eq!(process_record(1, &full, 1, None, None).name, "abcd");
}

#[test]
fn module_records_cut_at_nul() {
    let m = module_record(&wide("ntdll.dll", 256), 0x7FF8_0000_0000, 0x1F_0000, &wide("C:\\Windows\\ntdll.dll", 260));
    assert_eq!(m.name, "ntdll.dll");
    assert_eq!(m.base_address, 0x7FF8_0000_0000);
    assert_eq!(m.size, 0x1F_0000);
    assert_eq!(m.path, "C:\\Windows\\ntdll.dll");
}

#[test]
fn threads_are_filtered() {
    let entries = vec![
        ThreadEntry { thread_id: 1, owner_pid: 5, base_priority: 8 },
        ThreadEntry { thread_id: 2, owner_pid: 6, base_priority: 8 },
        ThreadEntry { thread_id: 3, owner_pid: 5, base_priority: 10 },
    ];
    let t = threads_of(5, &entries);
    assert_eq!(t.iter().map(|e| e.thread_id).collect::<Vec<_>>(), vec![1, 3]);
    assert!(threads_of(9, &entries).is_empty());
}

#[test]
fn titles_are_drawn_from_the_seed() {
    for seed in [0u64, 1, 2, 3, 4, 123_456_789, u64::MAX] {
        let t = random_title(seed);
        assert_eq!(t.len() as u64, 8 + seed % 5);
        assert!(t.chars().all(|c| c.is_ascii_alphanumeric()));
        assert_eq!(t, random_title(seed));
    }
    // seed 0: the first state is 1, whose high bits are zero
    assert!(random_title(0).starts_with('a'));
    assert_ne!(random_title(1), random_title(2));
}

