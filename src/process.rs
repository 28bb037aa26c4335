use vstd::prelude::*;

use crate::text::{
    decimal, decode_wide_name, push_char, push_decimal, push_str, utf16_lossy, wide_prefix,
};

verus! {

/// The text that `format_uptime` gives for a number of seconds.
pub open spec fn uptime_text(seconds: nat) -> Seq<char> {
    let days = seconds / 86400;
    let hours = (seconds % 86400) / 3600;
    let minutes = (seconds % 3600) / 60;
    if days > 0 {
        decimal(days) + "d "@ + decimal(hours) + "h "@ + decimal(minutes) + "m"@
    } else if hours > 0 {
        decimal(hours) + "h "@ + decimal(minutes) + "m"@
    } else {
        decimal(minutes) + "m"@
    }
}

/// Formats an uptime as days, hours and minutes, leaving out leading zero units.
pub fn format_uptime(seconds: u64) -> (r: String)
    ensures
        r@ == uptime_text(seconds as nat),
{
    let days = seconds / 86400;
    let hours = (seconds % 86400) / 3600;
    let minutes = (seconds % 3600) / 60;
    let mut r = String::new();
    if days > 0 {
        push_decimal(&mut r, days);
        push_str(&mut r, "d ");
        push_decimal(&mut r, hours);
        push_str(&mut r, "h ");
    } else if hours > 0 {
        push_decimal(&mut r, hours);
        push_str(&mut r, "h ");
    }
    push_decimal(&mut r, minutes);
    push_str(&mut r, "m");
    assert(r@ =~= uptime_text(seconds as nat));
    r
}

/// The name of a thread priority level.
pub open spec fn priority_name(priority: i32) -> &'static str {
    match priority {
        -15 => "Idle",
        -2 => "Lowest",
        -1 => "Below Normal",
        0 => "Normal",
        1 => "Above Normal",
        2 => "Highest",
        15 => "Time Critical",
        _ => "Unknown",
    }
}

/// Names a thread priority level; levels without a name are "Unknown".
pub fn get_priority_name(priority: i32) -> (r: &'static str)
    ensures
        r == priority_name(priority),
{
    match priority {
        -15 => "Idle",
        -2 => "Lowest",
        -1 => "Below Normal",
        0 => "Normal",
        1 => "Above Normal",
        2 => "Highest",
        15 => "Time Critical",
        _ => "Unknown",
    }
}

/// An entry of a thread snapshot.
#[derive(Clone, Copy, Debug, PartialEq, Eq, Structural)]
pub struct ThreadEntry {
    pub thread_id: u32,
    pub owner_pid: u32,
    pub base_priority: i32,
}

/// One thread of a process.
#[derive(Clone, Copy, Debug, PartialEq, Eq, Structural)]
pub struct ThreadInfo {
    pub thread_id: u32,
    pub owner_pid: u32,
    pub base_priority: i32,
    pub priority: i32,
}

/// The entries of a thread snapshot that belong to `pid`, in snapshot order.
pub open spec fn owned_by(entries: Seq<ThreadEntry>, pid: u32) -> Seq<ThreadEntry> {
    entries.filter(|e: ThreadEntry| e.owner_pid == pid)
}

/// Keeps the entries of a thread snapshot that belong to `pid`, in order.
pub fn threads_of(pid: u32, entries: &Vec<ThreadEntry>) -> (r: Vec<ThreadEntry>)
    ensures
        r@ == owned_by(entries@, pid),
{
    let mut out: Vec<ThreadEntry> = Vec::new();
    let mut i: usize = 0;
    while i < entries.len()
        invariant
            i <= entries@.len(),
            out@ == owned_by(entries@.subrange(0, i as int), pid),
        decreases entries@.len() - i,
    {
        let e = entries[i];
        proof {
            let f = |e: ThreadEntry| e.owner_pid == pid;
            assert(entries@.subrange(0, i + 1).drop_last() =~= entries@.subrange(0, i as int));
            reveal(Seq::filter);
        }
        if e.owner_pid == pid {
            out.push(e);
        }
        i = i + 1;
    }
    assert(entries@.subrange(0, entries@.len() as int) =~= entries@);
    out
}

/// One module loaded in a process.
#[derive(Clone, Debug)]
pub struct ModuleInfo {
    pub name: String,
    pub base_address: usize,
    pub size: u32,
    pub path: String,
}

/// Builds a module record from a module-snapshot entry, whose name and path
/// are fixed-size wide buffers cut at their first NUL.
pub fn module_record(name: &[u16], base_address: usize, size: u32, path: &[u16]) -> (r: ModuleInfo)
    ensures
        r.name@ == utf16_lossy(wide_prefix(name@)),
        r.base_address == base_address,
        r.size == size,
        r.path@ == utf16_lossy(wide_prefix(path@)),
{
    ModuleInfo { name: decode_wide_name(name), base_address, size, path: decode_wide_name(path) }
}

/// A process as one enumeration sees it. The working set is in bytes.
#[derive(Clone, Debug)]
pub struct ProcessRecord {
    pub pid: u32,
    pub name: String,
    pub working_set_bytes: u64,
    pub thread_count: u32,
    pub exe_path: String,
}

/// Builds the record of a process-snapshot entry. The details come from
/// opening the process, and either may be missing (the process could not be
/// opened, or the query failed): the working set is then 0 and the path empty.
pub fn process_record(
    pid: u32,
    exe_file: &[u16],
    thread_count: u32,
    working_set: Option<u64>,
    image_path: Option<&[u16]>,
) -> (r: ProcessRecord)
    ensures
        r.pid == pid,
        r.name@ == utf16_lossy(wide_prefix(exe_file@)),
        r.thread_count == thread_count,
        r.working_set_bytes == match working_set {
            Some(w) => w,
            None => 0,
        },
        r.exe_path@ == match image_path {
            Some(p) => utf16_lossy(p@),
            None => Seq::empty(),
        },
{
    let exe_path = match image_path {
        Some(p) => crate::text::decode_utf16_lossy(p),
        None => String::new(),
    };
    ProcessRecord {
        pid,
        name: decode_wide_name(exe_file),
        working_set_bytes: match working_set {
            Some(w) => w,
            None => 0,
        },
        thread_count,
        exe_path,
    }
}

/// The state after one step of the title generator.
pub open spec fn title_step(state: u64) -> u64 {
    state.wrapping_mul(6364136223846793005u64).wrapping_add(1u64)
}

/// The character at position `i` of the title alphabet: lower-case letters,
/// upper-case letters, then digits.
pub open spec fn title_char(i: int) -> char {
    if i < 26 {
        ((97 + i) as u8) as char
    } else if i < 52 {
        ((65 + i - 26) as u8) as char
    } else {
        ((48 + i - 52) as u8) as char
    }
}

/// `n` characters drawn from successive generator states after `state`.
pub open spec fn title_chars(state: u64, n: nat) -> Seq<char>
    decreases n,
{
    if n == 0 {
        Seq::empty()
    } else {
        let next = title_step(state);
        seq![title_char(((next >> 33u64) % 62) as int)] + title_chars(next, (n - 1) as nat)
    }
}

/// The title drawn from `seed`: eight to twelve characters, the count taken
/// from the seed itself.
pub open spec fn title_from(seed: u64) -> Seq<char> {
    title_chars(seed, (8 + seed % 5) as nat)
}

fn title_alphabet(i: u64) -> (c: char)
    requires
        i < 62,
    ensures
        c == title_char(i as int),
{
    if i < 26 {
        (97u8 + i as u8) as char
    } else if i < 52 {
        (65u8 + (i - 26) as u8) as char
    } else {
        (48u8 + (i - 52) as u8) as char
    }
}

/// Draws a window title of eight to twelve letters and digits from a seed
/// (the caller passes the time), so that each run shows a different one.
pub fn random_title(seed: u64) -> (r: String)
    ensures
        r@ == title_from(seed),
{
    let len = 8 + seed % 5;
    let mut r = String::new();
    let mut state = seed;
    let mut k: u64 = 0;
    while k < len
        invariant
            k <= len,
            len == 8 + seed % 5,
            r@ + title_chars(state, (len - k) as nat) == title_from(seed),
        decreases len - k,
    {
        let ghost before = r@;
        let ghost prev = state;
        state = state.wrapping_mul(6364136223846793005u64).wrapping_add(1u64);
        push_char(&mut r, title_alphabet((state >> 33u64) % 62));
        k = k + 1;
        assert(r@ + title_chars(state, (len - k) as nat) =~= before + title_chars(
            prev,
            (len - k + 1) as nat,
        ));
    }
    assert(r@ + title_chars(state, 0) =~= r@);
    r
}

} // verus!
