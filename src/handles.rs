use vstd::prelude::*;

use crate::bytes::{fits, le16, le32, read_u16, read_u32};
use crate::text::{push_str, str_eq};

verus! {

/// One open handle of a process, as the system handle table lists it.
#[derive(Clone, Debug)]
pub struct HandleInfo {
    pub handle_value: u16,
    pub object_type_index: u8,
    pub object_type_name: String,
    pub granted_access: u32,
}

/// A handle record as plain values.
pub open spec fn handle_view(h: HandleInfo) -> (u16, u8, Seq<char>, u32) {
    (h.handle_value, h.object_type_index, h.object_type_name@, h.granted_access)
}

pub open spec fn handles_view(v: Seq<HandleInfo>) -> Seq<(u16, u8, Seq<char>, u32)> {
    v.map_values(|h: HandleInfo| handle_view(h))
}

/// The usual name of an object-type index on current systems; indices vary
/// between versions, so this is a best guess.
pub open spec fn object_type_name(index: u8) -> &'static str {
    match index {
        0 => "Reserved",
        1 => "Reserved",
        2 => "Type",
        3 => "Directory",
        4 => "SymbolicLink",
        5 => "Token",
        6 => "Job",
        7 => "Process",
        8 => "Thread",
        9 => "UserApcReserve",
        10 => "IoCompletionReserve",
        11 => "ActivityReference",
        12 => "PsSiloContextPaged",
        13 => "PsSiloContextNonPaged",
        14 => "DebugObject",
        15 => "Event",
        16 => "Mutant",
        17 => "Callback",
        18 => "Semaphore",
        19 => "Timer",
        20 => "IRTimer",
        21 => "Profile",
        22 => "KeyedEvent",
        23 => "WindowStation",
        24 => "Desktop",
        25 => "Composition",
        26 => "RawInputManager",
        27 => "CoreMessaging",
        28 => "TpWorkerFactory",
        29 => "Adapter",
        30 => "Controller",
        31 => "Device",
        32 => "Driver",
        33 => "IoCompletion",
        34 => "WaitCompletionPacket",
        35 => "File",
        36 => "TmTm",
        37 => "TmTx",
        38 => "TmRm",
        39 => "TmEn",
        40 => "Section",
        41 => "Session",
        42 => "Partition",
        43 => "Key",
        44 => "RegistryTransaction",
        45 => "ALPC Port",
        46 => "EnergyTracker",
        47 => "PowerRequest",
        48 => "WmiGuid",
        49 => "EtwRegistration",
        50 => "EtwSessionDemuxEntry",
        51 => "EtwConsumer",
        52 => "DmaAdapter",
        53 => "DmaDomain",
        54 => "PcwObject",
        55 => "FilterConnectionPort",
        56 => "FilterCommunicationPort",
        57 => "NdisCmState",
        58 => "DxgkSharedResource",
        59 => "DxgkSharedSyncObject",
        60 => "DxgkSharedSwapChainObject",
        _ => "Unknown",
    }
}

fn object_type_str(index: u8) -> (r: &'static str)
    ensures
        r == object_type_name(index),
{
    match index {
        0 => "Reserved",
        1 => "Reserved",
        2 => "Type",
        3 => "Directory",
        4 => "SymbolicLink",
        5 => "Token",
        6 => "Job",
        7 => "Process",
        8 => "Thread",
        9 => "UserApcReserve",
        10 => "IoCompletionReserve",
        11 => "ActivityReference",
        12 => "PsSiloContextPaged",
        13 => "PsSiloContextNonPaged",
        14 => "DebugObject",
        15 => "Event",
        16 => "Mutant",
        17 => "Callback",
        18 => "Semaphore",
        19 => "Timer",
        20 => "IRTimer",
        21 => "Profile",
        22 => "KeyedEvent",
        23 => "WindowStation",
        24 => "Desktop",
        25 => "Composition",
        26 => "RawInputManager",
        27 => "CoreMessaging",
        28 => "TpWorkerFactory",
        29 => "Adapter",
        30 => "Controller",
        31 => "Device",
        32 => "Driver",
        33 => "IoCompletion",
        34 => "WaitCompletionPacket",
        35 => "File",
        36 => "TmTm",
        37 => "TmTx",
        38 => "TmRm",
        39 => "TmEn",
        40 => "Section",
        41 => "Session",
        42 => "Partition",
        43 => "Key",
        44 => "RegistryTransaction",
        45 => "ALPC Port",
        46 => "EnergyTracker",
        47 => "PowerRequest",
        48 => "WmiGuid",
        49 => "EtwRegistration",
        50 => "EtwSessionDemuxEntry",
        51 => "EtwConsumer",
        52 => "DmaAdapter",
        53 => "DmaDomain",
        54 => "PcwObject",
        55 => "FilterConnectionPort",
        56 => "FilterCommunicationPort",
        57 => "NdisCmState",
        58 => "DxgkSharedResource",
        59 => "DxgkSharedSyncObject",
        60 => "DxgkSharedSwapChainObject",
        _ => "Unknown",
    }
}

/// Names an object-type index (see `object_type_name`).
pub fn get_object_type_name(index: u8) -> (r: String)
    ensures
        r@ == object_type_name(index)@,
{
    let mut r = String::new();
    push_str(&mut r, object_type_str(index));
    assert(r@ =~= object_type_name(index)@);
    r
}

/// The first buffer size tried for the system handle table.
pub const HANDLE_BUFFER_INITIAL: usize = 0x10000;

/// The largest buffer size tried; beyond it the query is given up.
pub const HANDLE_BUFFER_CAP: usize = 0x4000000;

/// The status with which the query says that the buffer is too small.
pub const STATUS_INFO_LENGTH_MISMATCH: u32 = 0xC000_0004;

/// What to do after one query of the handle table.
#[derive(Clone, Copy, Debug, PartialEq, Eq, Structural)]
pub enum QueryNext {
    /// Query again with a buffer of this size.
    Retry(usize),
    /// Stop: the list of handles is empty.
    GiveUp,
    /// The buffer holds the table.
    Parse,
}

/// The decision after a query with a buffer of `size` bytes returned `status`:
/// a too-small buffer is doubled while the doubled size stays within the cap,
/// any other failure gives up, success parses.
pub open spec fn next_query(size: int, status: u32) -> QueryNext {
    if status == 0xC000_0004u32 {
        if 2 * size > 0x4000000 {
            QueryNext::GiveUp
        } else {
            QueryNext::Retry((2 * size) as usize)
        }
    } else if status != 0 {
        QueryNext::GiveUp
    } else {
        QueryNext::Parse
    }
}

/// Decides what follows a query of the handle table (see `next_query`).
pub fn next_handle_query(size: usize, status: u32) -> (r: QueryNext)
    requires
        size <= HANDLE_BUFFER_CAP,
    ensures
        r == next_query(size as int, status),
{
    if status == STATUS_INFO_LENGTH_MISMATCH {
        if size > HANDLE_BUFFER_CAP / 2 {
            QueryNext::GiveUp
        } else {
            QueryNext::Retry(size * 2)
        }
    } else if status != 0 {
        QueryNext::GiveUp
    } else {
        QueryNext::Parse
    }
}

/// A system whose handle table needs `required` bytes: smaller buffers are
/// refused as too small, others filled.
pub open spec fn table_status(size: int, required: int) -> u32 {
    if size < required {
        0xC000_0004u32
    } else {
        0
    }
}

/// The queries made from a buffer of `size` bytes against such a system:
/// how many, and whether they end with a table to parse.
pub open spec fn growth_run(size: int, required: int) -> (nat, bool)
    decreases 0x4000000 - size,
{
    if size <= 0 || size > 0x4000000 {
        (1, false)
    } else {
        match next_query(size, table_status(size, required)) {
            QueryNext::Retry(n) => {
                let rest = growth_run(n as int, required);
                (rest.0 + 1, rest.1)
            },
            QueryNext::GiveUp => (1, false),
            QueryNext::Parse => (1, true),
        }
    }
}

/// The buffer-growth loop makes at most eleven queries (the doublings from
/// the initial size to the cap, plus one): it gets the table whenever the
/// table fits within the cap, and gives up, with no handles, when it does not.
#[verifier::rlimit(40)]
pub proof fn handle_query_growth_is_bounded(required: int)
    ensures
        growth_run(0x10000, required).0 <= 11,
        growth_run(0x10000, required).1 <==> required <= 0x4000000,
{
    reveal_with_fuel(growth_run, 12);
}

/// Where the entries of the handle table start, and how long each one is,
/// for a 64-bit or a 32-bit layout.
pub open spec fn entry_layout(wide: bool) -> (int, int, int) {
    if wide {
        (8, 24, 16)
    } else {
        (4, 16, 12)
    }
}

/// The handle at entry offset `off`.
pub open spec fn handle_at(buf: Seq<u8>, off: int, wide: bool) -> (u16, u8, Seq<char>, u32) {
    let index = buf[off + 4];
    (
        le16(buf, off + 6) as u16,
        index,
        object_type_name(index)@,
        le32(buf, off + entry_layout(wide).2) as u32,
    )
}

/// The handles of `pid` among entries `i..n` of the table, in table order;
/// the walk stops at the first entry that does not fit in the buffer.
pub open spec fn table_handles(buf: Seq<u8>, pid: u32, wide: bool, off: int, i: int, n: int) -> Seq<
    (u16, u8, Seq<char>, u32),
>
    decreases n - i,
{
    let size = entry_layout(wide).1;
    if i >= n || off < 0 || off + size > buf.len() {
        Seq::empty()
    } else {
        let rest = table_handles(buf, pid, wide, off + size, i + 1, n);
        if le16(buf, off) == pid {
            seq![handle_at(buf, off, wide)] + rest
        } else {
            rest
        }
    }
}

/// The handles that a filled system handle table lists for `pid`.
pub open spec fn handles_of(buf: Seq<u8>, pid: u32, wide: bool) -> Seq<(u16, u8, Seq<char>, u32)> {
    if buf.len() < 4 {
        Seq::empty()
    } else {
        table_handles(buf, pid, wide, entry_layout(wide).0, 0, le32(buf, 0))
    }
}

/// Lists the handles that the system handle table holds for `pid`. The table
/// is a count followed by fixed-size entries whose layout depends on the
/// pointer width (`wide` for 64-bit); the table has no per-process filter, so
/// every entry is read and those of other processes are skipped.
pub fn parse_handle_table(buf: &[u8], pid: u32, wide: bool) -> (r: Vec<HandleInfo>)
    ensures
        handles_view(r@) == handles_of(buf@, pid, wide),
{
    let mut out: Vec<HandleInfo> = Vec::new();
    let len = buf.len();
    if len < 4 {
        return out;
    }
    let n = read_u32(buf, 0);
    let size: usize = if wide {
        24
    } else {
        16
    };
    let access_at: usize = if wide {
        16
    } else {
        12
    };
    let mut off: usize = if wide {
        8
    } else {
        4
    };
    let ghost start = off as int;
    let mut i: u32 = 0;
    while i < n && fits(len, off, size)
        invariant
            len == buf@.len(),
            (size as int, access_at as int) == (entry_layout(wide).1, entry_layout(wide).2),
            handles_view(out@) + table_handles(buf@, pid, wide, off as int, i as int, n as int)
                == table_handles(buf@, pid, wide, start, 0, n as int),
        ensures
            table_handles(buf@, pid, wide, off as int, i as int, n as int) =~= Seq::<
                (u16, u8, Seq<char>, u32),
            >::empty(),
            handles_view(out@) + table_handles(buf@, pid, wide, off as int, i as int, n as int)
                == table_handles(buf@, pid, wide, start, 0, n as int),
        decreases n - i,
    {
        let owner = read_u16(buf, off);
        if owner as u32 == pid {
            let index = buf[off + 4];
            let info = HandleInfo {
                handle_value: read_u16(buf, off + 6),
                object_type_index: index,
                object_type_name: get_object_type_name(index),
                granted_access: read_u32(buf, off + access_at),
            };
            let ghost before = handles_view(out@);
            assert(handle_view(info) == handle_at(buf@, off as int, wide));
            out.push(info);
            assert(handles_view(out@) =~= before + seq![handle_view(info)]);
        }
        off = off + size;
        i = i + 1;
    }
    assert(handles_view(out@) + table_handles(buf@, pid, wide, off as int, i as int, n as int)
        =~= handles_view(out@));
    out
}

} // verus!

verus! {

/// The display group of an object-type name.
pub open spec fn handle_category(name: Seq<char>) -> &'static str {
    if name == "File"@ {
        "file"
    } else if name == "Key"@ {
        "registry"
    } else if name == "Process"@ || name == "Thread"@ || name == "Job"@ {
        "process"
    } else if name == "Event"@ || name == "Mutant"@ || name == "Semaphore"@ || name == "Timer"@ {
        "sync"
    } else if name == "Section"@ {
        "memory"
    } else if name == "Token"@ {
        "security"
    } else if name == "ALPC Port"@ {
        "ipc"
    } else if name == "Directory"@ || name == "SymbolicLink"@ {
        "namespace"
    } else {
        "other"
    }
}

/// Groups an object-type name for display (see `handle_category`).
pub fn get_handle_type_category(object_name: &str) -> (r: &'static str)
    ensures
        r == handle_category(object_name@),
{
    if str_eq(object_name, "File") {
        "file"
    } else if str_eq(object_name, "Key") {
        "registry"
    } else if str_eq(object_name, "Process") || str_eq(object_name, "Thread") || str_eq(
        object_name,
        "Job",
    ) {
        "process"
    } else if str_eq(object_name, "Event") || str_eq(object_name, "Mutant") || str_eq(
        object_name,
        "Semaphore",
    ) || str_eq(object_name, "Timer") {
        "sync"
    } else if str_eq(object_name, "Section") {
        "memory"
    } else if str_eq(object_name, "Token") {
        "security"
    } else if str_eq(object_name, "ALPC Port") {
        "ipc"
    } else if str_eq(object_name, "Directory") || str_eq(object_name, "SymbolicLink") {
        "namespace"
    } else {
        "other"
    }
}

} // verus!
