use dioprocess::inject::{
    cleanup_after_failure, cleanup_after_success, invalid_pe, select_thread, step_failed, steps,
    wait_outcome, Cleanup, MiscError, Step, Strategy,
};
use dioprocess::mapping::stage_image;
use dioprocess::pe::PeError;
use dioprocess::process::ThreadEntry;
use dioprocess::shellcode::{
    entry_point_shellcode, hijack_layout, hijack_shellcode, wide_path, HIJACK_CODE_ROOM,
};

fn position(s: Strategy, step: Step) -> usize {
    steps(s).iter().position(|x| *x == step).unwrap()
}

#[test]
fn open_failure_reports_pid_and_allocates_nothing() {
    // "C:\test.dll" into a pid that does not exist: opening fails first.
    let pid = 999_999;
    let plan = steps(Strategy::RemoteThread);
    assert_eq!(plan[0], Step::OpenProcess);
    assert!(position(Strategy::RemoteThread, Step::AllocateStaging) > 0);
    let err = step_failed(plan[0], pid, 0);
    assert!(matches!(err, MiscError::OpenProcessFailed(999_999)));
    assert_eq!(err.message(), "Failed to open process 999999");
    assert!(cleanup_after_failure(Strategy::RemoteThread, 0).is_empty());
    let path = wide_path("C:\\test.dll");
    assert_eq!(path.len(), 12);
    assert_eq!(*path.last().unwrap(), 0);
}

#[test]
fn every_strategy_opens_first() {
    for s in [Strategy::RemoteThread, Strategy::ThreadHijack, Strategy::ManualMap, Strategy::Unload] {
        assert_eq!(steps(s)[0], Step::OpenProcess);
        assert!(cleanup_after_failure(s, 0).is_empty());
        for k in 1..steps(s).len() {
            assert_eq!(*cleanup_after_failure(s, k).last().unwrap(), Cleanup::CloseProcess);
        }
        assert_eq!(*cleanup_after_success(s).last().unwrap(), Cleanup::CloseProcess);
    }
}

#[test]
fn manual_map_rejects_bad_magic_before_touching_the_target() {
    let mut data = vec![0u8; 0x200];
    data[0] = b'X';
    data[1] = b'X';
    match stage_image(&data) {
        Err(MiscError::InvalidPE(m)) => assert_eq!(m, "Invalid DOS magic (not MZ)"),
        other => panic!("unexpected {:?}", other),
    }
    let tiny = vec![0u8; 10];
    match stage_image(&tiny) {
        Err(e) => assert_eq!(e.message(), "Invalid PE file: File too small for DOS header"),
        Ok(_) => panic!("accepted a ten-byte file"),
    }
}

#[test]
fn hijack_without_threads_is_not_found() {
    let pid = 4242;
    let none: Vec<ThreadEntry> = Vec::new();
    assert_eq!(select_thread(pid, &none), None);
    let others = vec![ThreadEntry { thread_id: 7, owner_pid: 1, base_priority: 8 }];
    assert_eq!(select_thread(pid, &others), None);
    let k = position(Strategy::ThreadHijack, Step::FindThread);
    assert!(k < position(Strategy::ThreadHijack, Step::CaptureContext));
    assert!(k < position(Strategy::ThreadHijack, Step::AllocateStaging));
    let err = step_failed(Step::FindThread, pid, 0);
    assert!(matches!(err, MiscError::NoThreadFound(4242)));
    assert_eq!(err.message(), "No enumerable thread found for process 4242");
    assert_eq!(cleanup_after_failure(Strategy::ThreadHijack, k), vec![Cleanup::CloseProcess]);
}

#[test]
fn hijack_picks_first_thread_of_target() {
    let entries = vec![
        ThreadEntry { thread_id: 7, owner_pid: 1, base_priority: 8 },
        ThreadEntry { thread_id: 11, owner_pid: 5, base_priority: 8 },
        ThreadEntry { thread_id: 12, owner_pid: 5, base_priority: 8 },
    ];
    assert_eq!(select_thread(5, &entries), Some(11));
}

#[test]
fn remote_thread_cleanup_order() {
    let s = Strategy::RemoteThread;
    assert_eq!(cleanup_after_failure(s, 1), vec![Cleanup::CloseProcess]);
    assert_eq!(cleanup_after_failure(s, 2), vec![Cleanup::FreeStaging, Cleanup::CloseProcess]);
    assert_eq!(cleanup_after_failure(s, 5), vec![Cleanup::FreeStaging, Cleanup::CloseProcess]);
    let done = vec![Cleanup::CloseThread, Cleanup::FreeStaging, Cleanup::CloseProcess];
    assert_eq!(cleanup_after_failure(s, 6), done);
    assert_eq!(cleanup_after_success(s), done);
}

#[test]
fn hijack_cleanup_keeps_stub_once_redirected() {
    let s = Strategy::ThreadHijack;
    let at = |step| position(s, step);
    assert_eq!(cleanup_after_failure(s, at(Step::SuspendThread)), vec![Cleanup::CloseThread, Cleanup::CloseProcess]);
    assert_eq!(
        cleanup_after_failure(s, at(Step::CaptureContext)),
        vec![Cleanup::ResumeThread, Cleanup::CloseThread, Cleanup::CloseProcess]
    );
    assert_eq!(
        cleanup_after_failure(s, at(Step::SetContext)),
        vec![Cleanup::FreeStaging, Cleanup::ResumeThread, Cleanup::CloseThread, Cleanup::CloseProcess]
    );
    assert_eq!(cleanup_after_failure(s, at(Step::ResumeThread)), vec![Cleanup::CloseThread, Cleanup::CloseProcess]);
    assert_eq!(cleanup_after_success(s), vec![Cleanup::CloseThread, Cleanup::CloseProcess]);
}

#[test]
fn manual_map_keeps_image_once_written() {
    let s = Strategy::ManualMap;
    assert_eq!(cleanup_after_failure(s, 2), vec![Cleanup::FreeStaging, Cleanup::CloseProcess]);
    assert_eq!(cleanup_after_failure(s, 3), vec![Cleanup::CloseProcess]);
    assert_eq!(cleanup_after_failure(s, 4), vec![Cleanup::FreeEntryStub, Cleanup::CloseProcess]);
    assert_eq!(
        cleanup_after_success(s),
        vec![Cleanup::CloseThread, Cleanup::FreeEntryStub, Cleanup::CloseProcess]
    );
}

#[test]
fn unload_cleanup() {
    let s = Strategy::Unload;
    assert_eq!(cleanup_after_failure(s, 3), vec![Cleanup::CloseProcess]);
    assert_eq!(cleanup_after_success(s), vec![Cleanup::CloseThread, Cleanup::CloseProcess]);
}

#[test]
fn wait_status() {
    assert!(wait_outcome(0).is_ok());
    assert!(matches!(wait_outcome(258), Err(MiscError::Timeout)));
}

#[test]
fn step_errors() {
    assert!(matches!(step_failed(Step::AllocateStaging, 1, 2), MiscError::AllocFailed));
    assert!(matches!(step_failed(Step::WriteImage, 1, 2), MiscError::WriteFailed));
    assert!(matches!(step_failed(Step::LocateLoaderModule, 1, 2), MiscError::GetModuleHandleFailed));
    assert!(matches!(step_failed(Step::LocateLoader, 1, 2), MiscError::GetProcAddressFailed));
    assert!(matches!(step_failed(Step::CreateThread, 1, 2), MiscError::CreateRemoteThreadFailed));
    assert!(matches!(step_failed(Step::EnumerateThreads, 1, 2), MiscError::ThreadEnumerationFailed));
    assert!(matches!(step_failed(Step::OpenThread, 1, 2), MiscError::OpenThreadFailed(2)));
    assert!(matches!(step_failed(Step::SuspendThread, 1, 2), MiscError::SuspendThreadFailed(2)));
    assert!(matches!(step_failed(Step::CaptureContext, 1, 2), MiscError::GetContextFailed));
    assert!(matches!(step_failed(Step::SetContext, 1, 2), MiscError::SetContextFailed));
    assert!(matches!(step_failed(Step::ResumeThread, 1, 2), MiscError::ResumeThreadFailed(2)));
    assert!(matches!(step_failed(Step::Wait, 1, 2), MiscError::Timeout));
}

#[test]
fn error_messages() {
    assert_eq!(MiscError::FileNotFound("C:\\x.dll".to_string()).message(), "DLL file not found: C:\\x.dll");
    assert_eq!(MiscError::Timeout.message(), "Remote thread timed out (10s)");
    assert_eq!(MiscError::ResumeThreadFailed(12).message(), "Failed to resume thread 12");
    assert_eq!(MiscError::FileReadFailed("a".to_string()).message(), "Failed to read file: a");
    match invalid_pe(PeError::UnsupportedBitWidth) {
        MiscError::InvalidPE(m) => assert_eq!(m, "Only PE32+ (64-bit) DLLs are supported"),
        _ => panic!("wrong variant"),
    }
}

#[test]
fn hijack_stub_bytes() {
    let code = hijack_shellcode(0x1111_2222_3333_4444, 0x5555_6666_7777_8888, 0x0102_0304_0506_0708);
    assert_eq!(code.len(), 26 + 8 + 2 + 8 + 21 + 8 + 5);
    assert!(code.len() <= HIJACK_CODE_ROOM);
    assert_eq!(code[0], 0x9C);
    assert_eq!(&code[24..26], &[0x48, 0xB9]);
    assert_eq!(&code[26..34], &0x1111_2222_3333_4444u64.to_le_bytes());
    assert_eq!(&code[36..44], &0x5555_6666_7777_8888u64.to_le_bytes());
    assert_eq!(&code[65..73], &0x0102_0304_0506_0708u64.to_le_bytes());
    assert_eq!(&code[73..], &[0x48, 0x87, 0x04, 0x24, 0xC3]);
}

#[test]
fn entry_stub_bytes() {
    let code = entry_point_shellcode(0x7FF0_0000_0000, 0x1234);
    assert_eq!(code.len(), 6 + 8 + 12 + 8 + 7);
    assert_eq!(&code[..6], &[0x48, 0x83, 0xEC, 0x28, 0x48, 0xB9]);
    assert_eq!(&code[6..14], &0x7FF0_0000_0000u64.to_le_bytes());
    assert_eq!(&code[14..17], &[0x48, 0xC7, 0xC2]);
    assert_eq!(&code[26..34], &0x7FF0_0000_1234u64.to_le_bytes());
    assert_eq!(*code.last().unwrap(), 0xC3);
}

#[test]
fn wide_path_encodes_utf16() {
    assert_eq!(wide_path("ab"), vec![0x61, 0x62, 0]);
    assert_eq!(wide_path("é"), vec![0xE9, 0]);
    assert_eq!(wide_path("\u{1F600}"), vec![0xD83D, 0xDE00, 0]);
    assert_eq!(wide_path(""), vec![0]);
}

#[test]
fn hijack_layout_sizes() {
    assert_eq!(hijack_layout(12), Some((24, 24 + 128)));
    assert_eq!(hijack_layout(usize::MAX / 2), None);
}
