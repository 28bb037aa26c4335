use vstd::prelude::*;

use crate::pe::PeError;
use crate::process::ThreadEntry;
use crate::text::{decimal, push_decimal, push_str};

verus! {

/// Why an injection or unload failed.
#[derive(Clone, Debug)]
pub enum MiscError {
    FileNotFound(String),
    OpenProcessFailed(u32),
    AllocFailed,
    WriteFailed,
    GetModuleHandleFailed,
    GetProcAddressFailed,
    CreateRemoteThreadFailed,
    Timeout,
    UnloadFailed,
    ThreadEnumerationFailed,
    NoThreadFound(u32),
    OpenThreadFailed(u32),
    SuspendThreadFailed(u32),
    GetContextFailed,
    SetContextFailed,
    ResumeThreadFailed(u32),
    FileReadFailed(String),
    InvalidPE(String),
}

/// The three ways of bringing a library into a target, and the reverse.
#[derive(Clone, Copy, Debug, PartialEq, Eq, Structural)]
pub enum Strategy {
    /// A remote thread that starts at the loader with the path as argument.
    RemoteThread,
    /// An existing thread redirected through a stub that calls the loader.
    ThreadHijack,
    /// The image mapped by hand, then its entry point called by a stub.
    ManualMap,
    /// A remote thread that starts at the unloader with the module base.
    Unload,
}

/// One operation on the target, in the order a strategy performs them.
#[derive(Clone, Copy, Debug, PartialEq, Eq, Structural)]
pub enum Step {
    OpenProcess,
    EnumerateThreads,
    FindThread,
    OpenThread,
    SuspendThread,
    CaptureContext,
    AllocateStaging,
    WritePath,
    LocateLoaderModule,
    LocateLoader,
    WriteCode,
    SetContext,
    ResumeThread,
    WriteImage,
    AllocateEntryStub,
    WriteEntryStub,
    CreateThread,
    Wait,
}

/// A release of something a strategy holds in or on the target.
#[derive(Clone, Copy, Debug, PartialEq, Eq, Structural)]
pub enum Cleanup {
    CloseThread,
    FreeStaging,
    FreeEntryStub,
    ResumeThread,
    CloseProcess,
}

/// The steps of each strategy, in order.
pub open spec fn strategy_steps(s: Strategy) -> Seq<Step> {
    match s {
        Strategy::RemoteThread => seq![
            Step::OpenProcess,
            Step::AllocateStaging,
            Step::WritePath,
            Step::LocateLoaderModule,
            Step::LocateLoader,
            Step::CreateThread,
            Step::Wait,
        ],
        Strategy::ThreadHijack => seq![
            Step::OpenProcess,
            Step::EnumerateThreads,
            Step::FindThread,
            Step::OpenThread,
            Step::SuspendThread,
            Step::CaptureContext,
            Step::AllocateStaging,
            Step::WritePath,
            Step::LocateLoaderModule,
            Step::LocateLoader,
            Step::WriteCode,
            Step::SetContext,
            Step::ResumeThread,
        ],
        Strategy::ManualMap => seq![
            Step::OpenProcess,
            Step::AllocateStaging,
            Step::WriteImage,
            Step::AllocateEntryStub,
            Step::WriteEntryStub,
            Step::CreateThread,
            Step::Wait,
        ],
        Strategy::Unload => seq![
            Step::OpenProcess,
            Step::LocateLoaderModule,
            Step::LocateLoader,
            Step::CreateThread,
            Step::Wait,
        ],
    }
}

/// What a step holds once it succeeds, to be released later.
pub open spec fn acquires(step: Step) -> Option<Cleanup> {
    match step {
        Step::OpenProcess => Some(Cleanup::CloseProcess),
        Step::OpenThread => Some(Cleanup::CloseThread),
        Step::SuspendThread => Some(Cleanup::ResumeThread),
        Step::AllocateStaging => Some(Cleanup::FreeStaging),
        Step::AllocateEntryStub => Some(Cleanup::FreeEntryStub),
        Step::CreateThread => Some(Cleanup::CloseThread),
        _ => None,
    }
}

/// What a step releases itself, whether it succeeds or fails.
pub open spec fn performs(step: Step) -> Option<Cleanup> {
    match step {
        Step::ResumeThread => Some(Cleanup::ResumeThread),
        _ => None,
    }
}

/// What is kept on purpose once a step succeeds: a stub that a redirected
/// thread may be running, or a mapped image that must stay resident.
pub open spec fn retains(s: Strategy, step: Step) -> Option<Cleanup> {
    match (s, step) {
        (Strategy::ThreadHijack, Step::SetContext) => Some(Cleanup::FreeStaging),
        (Strategy::ManualMap, Step::WriteImage) => Some(Cleanup::FreeStaging),
        _ => None,
    }
}

/// `h` without any occurrence of `x`.
pub open spec fn remove_all(h: Seq<Cleanup>, x: Cleanup) -> Seq<Cleanup>
    decreases h.len(),
{
    if h.len() == 0 {
        Seq::empty()
    } else {
        let rest = remove_all(h.drop_last(), x);
        if h.last() == x {
            rest
        } else {
            rest.push(h.last())
        }
    }
}

pub open spec fn without(h: Seq<Cleanup>, c: Option<Cleanup>) -> Seq<Cleanup> {
    match c {
        Some(x) => remove_all(h, x),
        None => h,
    }
}

/// What is held after the first `k` steps of `s` have succeeded, most recent first.
pub open spec fn held(s: Strategy, k: int) -> Seq<Cleanup>
    decreases k,
{
    if k <= 0 {
        Seq::empty()
    } else {
        let step = strategy_steps(s)[k - 1];
        let h = without(without(held(s, k - 1), performs(step)), retains(s, step));
        match acquires(step) {
            Some(c) => seq![c] + h,
            None => h,
        }
    }
}

/// The releases owed when step `k` of `s` fails: what the earlier steps hold,
/// but for what the failed step already released.
pub open spec fn failure_cleanup(s: Strategy, k: int) -> Seq<Cleanup> {
    without(held(s, k), performs(strategy_steps(s)[k]))
}

/// The releases owed once every step of `s` has succeeded.
pub open spec fn success_cleanup(s: Strategy) -> Seq<Cleanup> {
    held(s, strategy_steps(s).len() as int)
}

/// The error a failed step reports.
pub open spec fn step_error(step: Step, pid: u32, tid: u32) -> MiscError {
    match step {
        Step::OpenProcess => MiscError::OpenProcessFailed(pid),
        Step::EnumerateThreads => MiscError::ThreadEnumerationFailed,
        Step::FindThread => MiscError::NoThreadFound(pid),
        Step::OpenThread => MiscError::OpenThreadFailed(tid),
        Step::SuspendThread => MiscError::SuspendThreadFailed(tid),
        Step::CaptureContext => MiscError::GetContextFailed,
        Step::AllocateStaging | Step::AllocateEntryStub => MiscError::AllocFailed,
        Step::WritePath | Step::WriteCode | Step::WriteImage | Step::WriteEntryStub => MiscError::WriteFailed,
        Step::LocateLoaderModule => MiscError::GetModuleHandleFailed,
        Step::LocateLoader => MiscError::GetProcAddressFailed,
        Step::CreateThread => MiscError::CreateRemoteThreadFailed,
        Step::SetContext => MiscError::SetContextFailed,
        Step::ResumeThread => MiscError::ResumeThreadFailed(tid),
        Step::Wait => MiscError::Timeout,
    }
}

/// The steps of a strategy, in the order they are performed.
pub fn steps(s: Strategy) -> (r: Vec<Step>)
    ensures
        r@ == strategy_steps(s),
{
    let r = match s {
        Strategy::RemoteThread => vec![
            Step::OpenProcess,
            Step::AllocateStaging,
            Step::WritePath,
            Step::LocateLoaderModule,
            Step::LocateLoader,
            Step::CreateThread,
            Step::Wait,
        ],
        Strategy::ThreadHijack => vec![
            Step::OpenProcess,
            Step::EnumerateThreads,
            Step::FindThread,
            Step::OpenThread,
            Step::SuspendThread,
            Step::CaptureContext,
            Step::AllocateStaging,
            Step::WritePath,
            Step::LocateLoaderModule,
            Step::LocateLoader,
            Step::WriteCode,
            Step::SetContext,
            Step::ResumeThread,
        ],
        Strategy::ManualMap => vec![
            Step::OpenProcess,
            Step::AllocateStaging,
            Step::WriteImage,
            Step::AllocateEntryStub,
            Step::WriteEntryStub,
            Step::CreateThread,
            Step::Wait,
        ],
        Strategy::Unload => vec![
            Step::OpenProcess,
            Step::LocateLoaderModule,
            Step::LocateLoader,
            Step::CreateThread,
            Step::Wait,
        ],
    };
    assert(r@ =~= strategy_steps(s));
    r
}

fn acquired_by(step: Step) -> (r: Option<Cleanup>)
    ensures
        r == acquires(step),
{
    match step {
        Step::OpenProcess => Some(Cleanup::CloseProcess),
        Step::OpenThread => Some(Cleanup::CloseThread),
        Step::SuspendThread => Some(Cleanup::ResumeThread),
        Step::AllocateStaging => Some(Cleanup::FreeStaging),
        Step::AllocateEntryStub => Some(Cleanup::FreeEntryStub),
        Step::CreateThread => Some(Cleanup::CloseThread),
        _ => None,
    }
}

fn performed_by(step: Step) -> (r: Option<Cleanup>)
    ensures
        r == performs(step),
{
    match step {
        Step::ResumeThread => Some(Cleanup::ResumeThread),
        _ => None,
    }
}

fn retained_by(s: Strategy, step: Step) -> (r: Option<Cleanup>)
    ensures
        r == retains(s, step),
{
    match (s, step) {
        (Strategy::ThreadHijack, Step::SetContext) => Some(Cleanup::FreeStaging),
        (Strategy::ManualMap, Step::WriteImage) => Some(Cleanup::FreeStaging),
        _ => None,
    }
}

fn drop_release(h: &Vec<Cleanup>, c: Option<Cleanup>) -> (r: Vec<Cleanup>)
    ensures
        r@ == without(h@, c),
{
    match c {
        None => h.clone(),
        Some(x) => {
            let mut out: Vec<Cleanup> = Vec::new();
            let mut i: usize = 0;
            while i < h.len()
                invariant
                    i <= h@.len(),
                    out@ == remove_all(h@.subrange(0, i as int), x),
                decreases h@.len() - i,
            {
                let y = h[i];
                assert(h@.subrange(0, i + 1).drop_last() =~= h@.subrange(0, i as int));
                if y != x {
                    out.push(y);
                }
                i = i + 1;
            }
            assert(h@.subrange(0, h@.len() as int) =~= h@);
            out
        },
    }
}

fn held_after(s: Strategy, steps: &Vec<Step>, k: usize) -> (r: Vec<Cleanup>)
    requires
        steps@ == strategy_steps(s),
        k <= steps@.len(),
    ensures
        r@ == held(s, k as int),
{
    let mut h: Vec<Cleanup> = Vec::new();
    let mut i: usize = 0;
    while i < k
        invariant
            i <= k,
            k <= steps@.len(),
            steps@ == strategy_steps(s),
            h@ == held(s, i as int),
        decreases k - i,
    {
        let step = steps[i];
        let kept = drop_release(&drop_release(&h, performed_by(step)), retained_by(s, step));
        h = match acquired_by(step) {
            Some(c) => {
                let mut n = vec![c];
                n.append(&mut kept.clone());
                n
            },
            None => kept,
        };
        i = i + 1;
        assert(h@ =~= held(s, i as int));
    }
    h
}

/// What must be released, in order, when step `k` of strategy `s` fails.
pub fn cleanup_after_failure(s: Strategy, k: usize) -> (r: Vec<Cleanup>)
    requires
        k < strategy_steps(s).len(),
    ensures
        r@ == failure_cleanup(s, k as int),
{
    let all = steps(s);
    let h = held_after(s, &all, k);
    drop_release(&h, performed_by(all[k]))
}

/// What must be released, in order, once every step of strategy `s` succeeded.
pub fn cleanup_after_success(s: Strategy) -> (r: Vec<Cleanup>)
    ensures
        r@ == success_cleanup(s),
{
    let all = steps(s);
    held_after(s, &all, all.len())
}

} // verus!

verus! {

/// Every strategy opens the target first, and a failure to open it leaves
/// nothing to release.
pub proof fn opening_comes_first(s: Strategy)
    ensures
        strategy_steps(s)[0] == Step::OpenProcess,
        failure_cleanup(s, 0) == Seq::<Cleanup>::empty(),
{
    assert(held(s, 0) == Seq::<Cleanup>::empty());
}

proof fn remove_all_keeps_last(h: Seq<Cleanup>, x: Cleanup)
    requires
        h.len() > 0,
        h.last() != x,
    ensures
        remove_all(h, x).len() > 0,
        remove_all(h, x).last() == h.last(),
{
}

proof fn held_ends_with_close_process(s: Strategy, k: int)
    requires
        1 <= k <= strategy_steps(s).len(),
    ensures
        held(s, k).len() > 0,
        held(s, k).last() == Cleanup::CloseProcess,
    decreases k,
{
    if k > 1 {
        held_ends_with_close_process(s, k - 1);
        let step = strategy_steps(s)[k - 1];
        let h0 = held(s, k - 1);
        let h1 = without(h0, performs(step));
        if let Some(x) = performs(step) {
            remove_all_keeps_last(h0, x);
        }
        let h2 = without(h1, retains(s, step));
        if let Some(x) = retains(s, step) {
            remove_all_keeps_last(h1, x);
        }
        if let Some(c) = acquires(step) {
            assert((seq![c] + h2).last() == h2.last());
        }
    } else {
        assert(strategy_steps(s)[0] == Step::OpenProcess);
        assert(held(s, 0) == Seq::<Cleanup>::empty());
        assert(held(s, 1) =~= seq![Cleanup::CloseProcess]);
    }
}

/// Once the target is open, every way out of a strategy, failure or success,
/// ends by closing the process handle.
pub proof fn process_handle_closed_last(s: Strategy, k: int)
    requires
        1 <= k <= strategy_steps(s).len(),
    ensures
        k < strategy_steps(s).len() ==> failure_cleanup(s, k).len() > 0 && failure_cleanup(
            s,
            k,
        ).last() == Cleanup::CloseProcess,
        success_cleanup(s).len() > 0,
        success_cleanup(s).last() == Cleanup::CloseProcess,
{
    held_ends_with_close_process(s, k);
    held_ends_with_close_process(s, strategy_steps(s).len() as int);
    if k < strategy_steps(s).len() {
        if let Some(x) = performs(strategy_steps(s)[k]) {
            remove_all_keeps_last(held(s, k), x);
        }
    }
}

/// The error that the failure of a step reports.
pub fn step_failed(step: Step, pid: u32, tid: u32) -> (r: MiscError)
    ensures
        r == step_error(step, pid, tid),
{
    match step {
        Step::OpenProcess => MiscError::OpenProcessFailed(pid),
        Step::EnumerateThreads => MiscError::ThreadEnumerationFailed,
        Step::FindThread => MiscError::NoThreadFound(pid),
        Step::OpenThread => MiscError::OpenThreadFailed(tid),
        Step::SuspendThread => MiscError::SuspendThreadFailed(tid),
        Step::CaptureContext => MiscError::GetContextFailed,
        Step::AllocateStaging | Step::AllocateEntryStub => MiscError::AllocFailed,
        Step::WritePath | Step::WriteCode | Step::WriteImage | Step::WriteEntryStub => MiscError::WriteFailed,
        Step::LocateLoaderModule => MiscError::GetModuleHandleFailed,
        Step::LocateLoader => MiscError::GetProcAddressFailed,
        Step::CreateThread => MiscError::CreateRemoteThreadFailed,
        Step::SetContext => MiscError::SetContextFailed,
        Step::ResumeThread => MiscError::ResumeThreadFailed(tid),
        Step::Wait => MiscError::Timeout,
    }
}

/// How long a strategy waits for its remote thread, in milliseconds.
pub const WAIT_TIMEOUT_MS: u32 = 10_000;

/// The outcome of waiting on a remote thread: only a signalled thread (wait
/// status 0) counts as done; any other status is a timeout.
pub fn wait_outcome(status: u32) -> (r: Result<(), MiscError>)
    ensures
        status == 0 <==> r is Ok,
        status != 0 ==> r == Err::<(), MiscError>(MiscError::Timeout),
{
    if status == 0 {
        Ok(())
    } else {
        Err(MiscError::Timeout)
    }
}

/// The index of the first entry owned by `pid`, if any.
pub open spec fn first_owned(entries: Seq<ThreadEntry>, pid: u32) -> Option<int>
    decreases entries.len(),
{
    if entries.len() == 0 {
        None
    } else if entries[0].owner_pid == pid {
        Some(0)
    } else {
        match first_owned(entries.drop_first(), pid) {
            Some(i) => Some(i + 1),
            None => None,
        }
    }
}

/// Picks the thread to hijack: the first one of the snapshot that belongs to `pid`.
pub fn select_thread(pid: u32, entries: &Vec<ThreadEntry>) -> (r: Option<u32>)
    ensures
        match first_owned(entries@, pid) {
            Some(i) => r == Some(entries@[i].thread_id),
            None => r is None,
        },
        r is None <==> forall|j: int| 0 <= j < entries@.len() ==> #[trigger] entries@[j].owner_pid != pid,
{
    let mut i: usize = 0;
    assert(entries@.subrange(0, entries@.len() as int) =~= entries@);
    while i < entries.len()
        invariant
            i <= entries@.len(),
            forall|j: int| 0 <= j < i ==> #[trigger] entries@[j].owner_pid != pid,
            first_owned(entries@, pid) == match first_owned(
                entries@.subrange(i as int, entries@.len() as int),
                pid,
            ) {
                Some(x) => Some(x + i),
                None => None,
            },
        decreases entries@.len() - i,
    {
        let ghost rest = entries@.subrange(i as int, entries@.len() as int);
        assert(rest[0] == entries@[i as int]);
        if entries[i].owner_pid == pid {
            return Some(entries[i].thread_id);
        }
        assert(rest.drop_first() =~= entries@.subrange(i + 1, entries@.len() as int));
        i = i + 1;
    }
    None
}

} // verus!

verus! {

/// The text that describes a failed PE check.
pub open spec fn pe_error_text(e: PeError) -> &'static str {
    match e {
        PeError::TooSmallForDosHeader => "File too small for DOS header",
        PeError::BadDosMagic => "Invalid DOS magic (not MZ)",
        PeError::TooSmallForPeSignature => "File too small for PE signature",
        PeError::BadPeSignature => "Invalid PE signature",
        PeError::TooSmallForCoffHeader => "File too small for COFF header",
        PeError::TooSmallForOptionalHeader => "File too small for optional header",
        PeError::UnsupportedBitWidth => "Only PE32+ (64-bit) DLLs are supported",
        PeError::OptionalHeaderTooSmall => "Optional header too small",
        PeError::EntryPointOutOfRange => "Entry point outside the image",
        PeError::SectionOutOfRange => "Section outside the image",
        PeError::DirectoryOutOfRange => "Data directory outside the image",
    }
}

/// Describes a failed PE check.
pub fn pe_error_message(e: PeError) -> (r: &'static str)
    ensures
        r == pe_error_text(e),
{
    match e {
        PeError::TooSmallForDosHeader => "File too small for DOS header",
        PeError::BadDosMagic => "Invalid DOS magic (not MZ)",
        PeError::TooSmallForPeSignature => "File too small for PE signature",
        PeError::BadPeSignature => "Invalid PE signature",
        PeError::TooSmallForCoffHeader => "File too small for COFF header",
        PeError::TooSmallForOptionalHeader => "File too small for optional header",
        PeError::UnsupportedBitWidth => "Only PE32+ (64-bit) DLLs are supported",
        PeError::OptionalHeaderTooSmall => "Optional header too small",
        PeError::EntryPointOutOfRange => "Entry point outside the image",
        PeError::SectionOutOfRange => "Section outside the image",
        PeError::DirectoryOutOfRange => "Data directory outside the image",
    }
}

/// The malformed-input error for a failed PE check.
pub fn invalid_pe(e: PeError) -> (r: MiscError)
    ensures
        r matches MiscError::InvalidPE(m) && m@ == pe_error_text(e)@,
{
    let mut m = String::new();
    push_str(&mut m, pe_error_message(e));
    assert(m@ =~= pe_error_text(e)@);
    MiscError::InvalidPE(m)
}

/// The text of an error: a fixed phrase, then the path or identifier it names.
pub open spec fn error_text(e: MiscError) -> Seq<char> {
    match e {
        MiscError::FileNotFound(p) => "DLL file not found: "@ + p@,
        MiscError::OpenProcessFailed(pid) => "Failed to open process "@ + decimal(pid as nat),
        MiscError::AllocFailed => "Failed to allocate memory in target process"@,
        MiscError::WriteFailed => "Failed to write to target process memory"@,
        MiscError::GetModuleHandleFailed => "Failed to get kernel32.dll handle"@,
        MiscError::GetProcAddressFailed => "Failed to get LoadLibraryW address"@,
        MiscError::CreateRemoteThreadFailed => "Failed to create remote thread"@,
        MiscError::Timeout => "Remote thread timed out (10s)"@,
        MiscError::UnloadFailed => "Failed to unload module"@,
        MiscError::ThreadEnumerationFailed => "Failed to enumerate threads (CreateToolhelp32Snapshot)"@,
        MiscError::NoThreadFound(pid) => "No enumerable thread found for process "@ + decimal(
            pid as nat,
        ),
        MiscError::OpenThreadFailed(tid) => "Failed to open thread "@ + decimal(tid as nat),
        MiscError::SuspendThreadFailed(tid) => "Failed to suspend thread "@ + decimal(tid as nat),
        MiscError::GetContextFailed => "Failed to get thread context"@,
        MiscError::SetContextFailed => "Failed to set thread context"@,
        MiscError::ResumeThreadFailed(tid) => "Failed to resume thread "@ + decimal(tid as nat),
        MiscError::FileReadFailed(p) => "Failed to read file: "@ + p@,
        MiscError::InvalidPE(m) => "Invalid PE file: "@ + m@,
    }
}

impl MiscError {
    /// Describes the error in one line.
    pub fn message(&self) -> (r: String)
        ensures
            r@ == error_text(*self),
    {
        let mut r = String::new();
        match self {
            MiscError::FileNotFound(p) => {
                push_str(&mut r, "DLL file not found: ");
                push_str(&mut r, p.as_str());
            },
            MiscError::OpenProcessFailed(pid) => {
                push_str(&mut r, "Failed to open process ");
                push_decimal(&mut r, *pid as u64);
            },
            MiscError::AllocFailed => push_str(&mut r, "Failed to allocate memory in target process"),
            MiscError::WriteFailed => push_str(&mut r, "Failed to write to target process memory"),
            MiscError::GetModuleHandleFailed => push_str(&mut r, "Failed to get kernel32.dll handle"),
            MiscError::GetProcAddressFailed => push_str(&mut r, "Failed to get LoadLibraryW address"),
            MiscError::CreateRemoteThreadFailed => push_str(&mut r, "Failed to create remote thread"),
            MiscError::Timeout => push_str(&mut r, "Remote thread timed out (10s)"),
            MiscError::UnloadFailed => push_str(&mut r, "Failed to unload module"),
            MiscError::ThreadEnumerationFailed => push_str(
                &mut r,
                "Failed to enumerate threads (CreateToolhelp32Snapshot)",
            ),
            MiscError::NoThreadFound(pid) => {
                push_str(&mut r, "No enumerable thread found for process ");
                push_decimal(&mut r, *pid as u64);
            },
            MiscError::OpenThreadFailed(tid) => {
                push_str(&mut r, "Failed to open thread ");
                push_decimal(&mut r, *tid as u64);
            },
            MiscError::SuspendThreadFailed(tid) => {
                push_str(&mut r, "Failed to suspend thread ");
                push_decimal(&mut r, *tid as u64);
            },
            MiscError::GetContextFailed => push_str(&mut r, "Failed to get thread context"),
            MiscError::SetContextFailed => push_str(&mut r, "Failed to set thread context"),
            MiscError::ResumeThreadFailed(tid) => {
                push_str(&mut r, "Failed to resume thread ");
                push_decimal(&mut r, *tid as u64);
            },
            MiscError::FileReadFailed(p) => {
                push_str(&mut r, "Failed to read file: ");
                push_str(&mut r, p.as_str());
            },
            MiscError::InvalidPE(m) => {
                push_str(&mut r, "Invalid PE file: ");
                push_str(&mut r, m.as_str());
            },
        }
        assert(r@ =~= error_text(*self));
        r
    }
}

} // verus!

verus! {

/// The releases owed after each prefix of steps that the laws below rely on.
#[verifier::rlimit(40)]
proof fn held_values()
    ensures
        held(Strategy::RemoteThread, 1) == seq![Cleanup::CloseProcess],
        held(Strategy::RemoteThread, 2) == seq![Cleanup::FreeStaging, Cleanup::CloseProcess],
        held(Strategy::RemoteThread, 3) == seq![Cleanup::FreeStaging, Cleanup::CloseProcess],
        held(Strategy::RemoteThread, 4) == seq![Cleanup::FreeStaging, Cleanup::CloseProcess],
        held(Strategy::RemoteThread, 5) == seq![Cleanup::FreeStaging, Cleanup::CloseProcess],
        held(Strategy::RemoteThread, 6) == seq![Cleanup::CloseThread, Cleanup::FreeStaging, Cleanup::CloseProcess],
        held(Strategy::RemoteThread, 7) == seq![Cleanup::CloseThread, Cleanup::FreeStaging, Cleanup::CloseProcess],
        held(Strategy::ManualMap, 2) == seq![Cleanup::FreeStaging, Cleanup::CloseProcess],
        held(Strategy::ManualMap, 3) == seq![Cleanup::CloseProcess],
        held(Strategy::ManualMap, 4) == seq![Cleanup::FreeEntryStub, Cleanup::CloseProcess],
        held(Strategy::ManualMap, 5) == seq![Cleanup::FreeEntryStub, Cleanup::CloseProcess],
        held(Strategy::ManualMap, 6) == seq![Cleanup::CloseThread, Cleanup::FreeEntryStub, Cleanup::CloseProcess],
        held(Strategy::ManualMap, 7) == seq![Cleanup::CloseThread, Cleanup::FreeEntryStub, Cleanup::CloseProcess],
        held(Strategy::Unload, 4) == seq![Cleanup::CloseThread, Cleanup::CloseProcess],
        held(Strategy::Unload, 5) == seq![Cleanup::CloseThread, Cleanup::CloseProcess],
        held(Strategy::ThreadHijack, 4) == seq![Cleanup::CloseThread, Cleanup::CloseProcess],
        held(Strategy::ThreadHijack, 5) == seq![Cleanup::ResumeThread, Cleanup::CloseThread, Cleanup::CloseProcess],
        held(Strategy::ThreadHijack, 7) == seq![
            Cleanup::FreeStaging,
            Cleanup::ResumeThread,
            Cleanup::CloseThread,
            Cleanup::CloseProcess,
        ],
        held(Strategy::ThreadHijack, 11) == seq![
            Cleanup::FreeStaging,
            Cleanup::ResumeThread,
            Cleanup::CloseThread,
            Cleanup::CloseProcess,
        ],
        held(Strategy::ThreadHijack, 12) == seq![Cleanup::ResumeThread, Cleanup::CloseThread, Cleanup::CloseProcess],
        held(Strategy::ThreadHijack, 13) == seq![Cleanup::CloseThread, Cleanup::CloseProcess],
{
    reveal_with_fuel(held, 14);
    reveal_with_fuel(remove_all, 6);
    let s = Strategy::RemoteThread;
    assert(held(s, 1) =~= seq![Cleanup::CloseProcess]);
    assert(held(s, 2) =~= seq![Cleanup::FreeStaging, Cleanup::CloseProcess]);
    assert(held(s, 6) =~= seq![Cleanup::CloseThread, Cleanup::FreeStaging, Cleanup::CloseProcess]);
    assert(held(s, 7) =~= seq![Cleanup::CloseThread, Cleanup::FreeStaging, Cleanup::CloseProcess]);
    let s = Strategy::ManualMap;
    assert(held(s, 2) =~= seq![Cleanup::FreeStaging, Cleanup::CloseProcess]);
    assert(held(s, 3) =~= seq![Cleanup::CloseProcess]);
    assert(held(s, 4) =~= seq![Cleanup::FreeEntryStub, Cleanup::CloseProcess]);
    assert(held(s, 6) =~= seq![Cleanup::CloseThread, Cleanup::FreeEntryStub, Cleanup::CloseProcess]);
    assert(held(s, 7) =~= seq![Cleanup::CloseThread, Cleanup::FreeEntryStub, Cleanup::CloseProcess]);
    let s = Strategy::Unload;
    assert(held(s, 4) =~= seq![Cleanup::CloseThread, Cleanup::CloseProcess]);
    assert(held(s, 5) =~= seq![Cleanup::CloseThread, Cleanup::CloseProcess]);
    let s = Strategy::ThreadHijack;
    assert(held(s, 4) =~= seq![Cleanup::CloseThread, Cleanup::CloseProcess]);
    assert(held(s, 5) =~= seq![Cleanup::ResumeThread, Cleanup::CloseThread, Cleanup::CloseProcess]);
    assert(held(s, 7) =~= seq![
        Cleanup::FreeStaging,
        Cleanup::ResumeThread,
        Cleanup::CloseThread,
        Cleanup::CloseProcess,
    ]);
    assert(held(s, 11) =~= seq![
        Cleanup::FreeStaging,
        Cleanup::ResumeThread,
        Cleanup::CloseThread,
        Cleanup::CloseProcess,
    ]);
    assert(held(s, 12) =~= seq![Cleanup::ResumeThread, Cleanup::CloseThread, Cleanup::CloseProcess]);
    assert(held(s, 13) =~= seq![Cleanup::CloseThread, Cleanup::CloseProcess]);
}


/// What each strategy leaves behind when it succeeds: the remote-thread
/// loader frees its path; the hijack keeps its stub, which the redirected
/// thread may still be running; the manual mapper frees only its entry stub,
/// keeping the mapped image resident.
pub proof fn success_releases()
    ensures
        success_cleanup(Strategy::RemoteThread) == seq![
            Cleanup::CloseThread,
            Cleanup::FreeStaging,
            Cleanup::CloseProcess,
        ],
        success_cleanup(Strategy::ThreadHijack) == seq![Cleanup::CloseThread, Cleanup::CloseProcess],
        success_cleanup(Strategy::ManualMap) == seq![
            Cleanup::CloseThread,
            Cleanup::FreeEntryStub,
            Cleanup::CloseProcess,
        ],
        success_cleanup(Strategy::Unload) == seq![Cleanup::CloseThread, Cleanup::CloseProcess],
{
    held_values();
}

/// A failure releases the loader path whenever it was allocated, in the
/// remote-thread strategy; in the manual mapper it never frees the image once
/// the image was written into the target.
pub proof fn failure_releases_staging()
    ensures
        forall|k: int|
            1 < k < 7 ==> #[trigger] failure_cleanup(Strategy::RemoteThread, k).contains(
                Cleanup::FreeStaging,
            ),
        forall|k: int|
            2 < k < 7 ==> !#[trigger] failure_cleanup(Strategy::ManualMap, k).contains(
                Cleanup::FreeStaging,
            ),
{
    held_values();
    assert forall|k: int| 1 < k < 7 implies #[trigger] failure_cleanup(
        Strategy::RemoteThread,
        k,
    ).contains(Cleanup::FreeStaging) by {
        let h = held(Strategy::RemoteThread, k);
        assert(performs(strategy_steps(Strategy::RemoteThread)[k]) is None);
        assert(failure_cleanup(Strategy::RemoteThread, k) == h);
        if k == 6 {
            assert(h[1] == Cleanup::FreeStaging);
        } else {
            assert(h[0] == Cleanup::FreeStaging);
        }
    }
    assert forall|k: int| 2 < k < 7 implies !#[trigger] failure_cleanup(
        Strategy::ManualMap,
        k,
    ).contains(Cleanup::FreeStaging) by {
        let h = held(Strategy::ManualMap, k);
        assert(performs(strategy_steps(Strategy::ManualMap)[k]) is None);
        assert(failure_cleanup(Strategy::ManualMap, k) == h);
        assert(forall|i: int| 0 <= i < h.len() ==> h[i] != Cleanup::FreeStaging);
    }
}

} // verus!
