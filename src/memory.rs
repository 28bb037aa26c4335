use vstd::prelude::*;

use crate::text::{push_char, push_str};

verus! {

/// One region of a target's virtual address space.
#[derive(Clone, Copy, Debug, PartialEq, Eq, Structural)]
pub struct MemoryRegionInfo {
    pub base_address: usize,
    pub allocation_base: usize,
    pub region_size: usize,
    pub state: u32,
    pub mem_type: u32,
    pub protect: u32,
    pub allocation_protect: u32,
}

/// Where the walk goes after the region found at `address` spanned `size`
/// bytes: the address right after it, unless that does not lie strictly
/// beyond `address` (a zero size, or the end of the address space).
pub open spec fn next_address(address: usize, size: usize) -> Option<usize> {
    if size > 0 && address + size <= usize::MAX {
        Some((address + size) as usize)
    } else {
        None
    }
}

/// The next address to query in a region walk (see `next_address`).
pub fn next_region_address(address: usize, size: usize) -> (r: Option<usize>)
    ensures
        r == next_address(address, size),
        r matches Some(n) ==> n > address,
{
    match address.checked_add(size) {
        Some(n) => if n > address {
            Some(n)
        } else {
            None
        },
        None => None,
    }
}

/// The addresses queried by a walk that starts at `address` and is answered
/// with the region sizes `sizes`, one per successful query; the walk ends when
/// the answers run out or the next address would not advance.
pub open spec fn region_walk(address: usize, sizes: Seq<usize>) -> Seq<usize>
    decreases sizes.len(),
{
    if sizes.len() == 0 {
        Seq::empty()
    } else {
        match next_address(address, sizes[0]) {
            Some(n) => seq![address] + region_walk(n, sizes.drop_first()),
            None => seq![address],
        }
    }
}

proof fn region_walk_from(address: usize, sizes: Seq<usize>)
    ensures
        region_walk(address, sizes).len() <= sizes.len(),
        forall|i: int|
            0 <= i < region_walk(address, sizes).len() ==> #[trigger] region_walk(address, sizes)[i]
                >= address + i,
        forall|i: int, j: int|
            0 <= i < j < region_walk(address, sizes).len() ==> #[trigger] region_walk(
                address,
                sizes,
            )[i] < #[trigger] region_walk(address, sizes)[j],
    decreases sizes.len(),
{
    if sizes.len() > 0 {
        if let Some(n) = next_address(address, sizes[0]) {
            region_walk_from(n, sizes.drop_first());
            let w = region_walk(address, sizes);
            let rest = region_walk(n, sizes.drop_first());
            assert(w == seq![address] + rest);
            assert forall|i: int, j: int| 0 <= i < j < w.len() implies #[trigger] w[i] < #[trigger] w[j] by {
                if i == 0 {
                    assert(w[j] == rest[j - 1]);
                } else {
                    assert(w[i] == rest[i - 1] && w[j] == rest[j - 1]);
                }
            }
            assert forall|i: int| 0 <= i < w.len() implies #[trigger] w[i] >= address + i by {
                if i > 0 {
                    assert(w[i] == rest[i - 1]);
                }
            }
        }
    }
}

/// Whatever region sizes the system reports, zero-sized ones included, a
/// region walk queries strictly increasing addresses, so it never visits an
/// address twice; it makes at most one query per answer, and never more than
/// there are addresses from its start to the end of the address space.
pub proof fn region_walk_never_revisits(address: usize, sizes: Seq<usize>)
    ensures
        region_walk(address, sizes).len() <= sizes.len(),
        region_walk(address, sizes).len() <= usize::MAX - address + 1,
        forall|i: int, j: int|
            0 <= i < j < region_walk(address, sizes).len() ==> region_walk(address, sizes)[i]
                < region_walk(address, sizes)[j],
{
    region_walk_from(address, sizes);
    let w = region_walk(address, sizes);
    if w.len() > 0 {
        assert(w[w.len() - 1] >= address + w.len() - 1);
    }
}

/// The most bytes a single read of a target's memory returns.
pub const READ_CAP: usize = 1024 * 1024;

/// How many bytes a read of `size` bytes asks for: at most one mebibyte.
pub fn capped_read_size(size: usize) -> (r: usize)
    ensures
        r == if size <= 0x10_0000 {
            size
        } else {
            0x10_0000
        },
{
    if size <= READ_CAP {
        size
    } else {
        READ_CAP
    }
}

pub const MEM_COMMIT: u32 = 0x1000;

pub const MEM_RESERVE: u32 = 0x2000;

pub const MEM_FREE: u32 = 0x10000;

pub const MEM_PRIVATE: u32 = 0x20000;

pub const MEM_MAPPED: u32 = 0x40000;

pub const MEM_IMAGE: u32 = 0x1000000;

pub open spec fn state_name(state: u32) -> &'static str {
    if state == 0x1000 {
        "Commit"
    } else if state == 0x2000 {
        "Reserve"
    } else if state == 0x10000 {
        "Free"
    } else {
        "Unknown"
    }
}

/// Names a region state.
pub fn get_memory_state_name(state: u32) -> (r: &'static str)
    ensures
        r == state_name(state),
{
    if state == MEM_COMMIT {
        "Commit"
    } else if state == MEM_RESERVE {
        "Reserve"
    } else if state == MEM_FREE {
        "Free"
    } else {
        "Unknown"
    }
}

pub open spec fn region_type_name(mem_type: u32) -> &'static str {
    if mem_type == 0x20000 {
        "Private"
    } else if mem_type == 0x40000 {
        "Mapped"
    } else if mem_type == 0x1000000 {
        "Image"
    } else if mem_type == 0 {
        "-"
    } else {
        "Unknown"
    }
}

/// Names a region type; a free region has none, shown as "-".
pub fn get_memory_type_name(mem_type: u32) -> (r: &'static str)
    ensures
        r == region_type_name(mem_type),
{
    if mem_type == MEM_PRIVATE {
        "Private"
    } else if mem_type == MEM_MAPPED {
        "Mapped"
    } else if mem_type == MEM_IMAGE {
        "Image"
    } else if mem_type == 0 {
        "-"
    } else {
        "Unknown"
    }
}

/// The name of the access part (low byte) of a protection value.
pub open spec fn access_name(base: u32) -> &'static str {
    if base == 0x01 {
        "NoAccess"
    } else if base == 0x02 {
        "Read"
    } else if base == 0x04 {
        "ReadWrite"
    } else if base == 0x08 {
        "WriteCopy"
    } else if base == 0x10 {
        "Execute"
    } else if base == 0x20 {
        "ExecuteRead"
    } else if base == 0x40 {
        "ExecuteReadWrite"
    } else if base == 0x80 {
        "ExecuteWriteCopy"
    } else {
        "Unknown"
    }
}

fn access_str(base: u32) -> (r: &'static str)
    ensures
        r == access_name(base),
{
    if base == 0x01 {
        "NoAccess"
    } else if base == 0x02 {
        "Read"
    } else if base == 0x04 {
        "ReadWrite"
    } else if base == 0x08 {
        "WriteCopy"
    } else if base == 0x10 {
        "Execute"
    } else if base == 0x20 {
        "ExecuteRead"
    } else if base == 0x40 {
        "ExecuteReadWrite"
    } else if base == 0x80 {
        "ExecuteWriteCopy"
    } else {
        "Unknown"
    }
}

pub const PAGE_GUARD: u32 = 0x100;

pub const PAGE_NOCACHE: u32 = 0x200;

pub const PAGE_WRITECOMBINE: u32 = 0x400;

/// " + Name" where the modifier bit is set, nothing otherwise.
pub open spec fn modifier(protect: u32, bit: u32, name: &'static str) -> Seq<char> {
    if protect & bit != 0 {
        " + "@ + name@
    } else {
        Seq::empty()
    }
}

/// The text of a protection value: "-" for none, else the access name
/// followed by each modifier that is set.
pub open spec fn protect_text(protect: u32) -> Seq<char> {
    if protect == 0 {
        "-"@
    } else {
        access_name(protect & 0xFF)@ + modifier(protect, 0x100, "Guard") + modifier(
            protect,
            0x200,
            "NoCache",
        ) + modifier(protect, 0x400, "WriteCombine")
    }
}

/// Describes a protection value (see `protect_text`).
pub fn get_memory_protect_name(protect: u32) -> (r: String)
    ensures
        r@ == protect_text(protect),
{
    let mut r = String::new();
    if protect == 0 {
        push_str(&mut r, "-");
        assert(r@ =~= protect_text(protect));
        return r;
    }
    push_str(&mut r, access_str(protect & 0xFF));
    let ghost a = r@;
    if protect & PAGE_GUARD != 0 {
        push_str(&mut r, " + ");
        push_str(&mut r, "Guard");
    }
    assert(r@ =~= a + modifier(protect, 0x100, "Guard"));
    let ghost b = r@;
    if protect & PAGE_NOCACHE != 0 {
        push_str(&mut r, " + ");
        push_str(&mut r, "NoCache");
    }
    assert(r@ =~= b + modifier(protect, 0x200, "NoCache"));
    let ghost c = r@;
    if protect & PAGE_WRITECOMBINE != 0 {
        push_str(&mut r, " + ");
        push_str(&mut r, "WriteCombine");
    }
    assert(r@ =~= c + modifier(protect, 0x400, "WriteCombine"));
    assert(r@ =~= protect_text(protect));
    r
}

} // verus!

verus! {

/// The upper-case hexadecimal digit of a value below 16.
pub open spec fn hex_digit(v: int) -> char {
    if v < 10 {
        ((48 + v) as u8) as char
    } else {
        ((55 + v) as u8) as char
    }
}

fn hex_digit_of(v: u8) -> (c: char)
    requires
        v < 16,
    ensures
        c == hex_digit(v as int),
{
    if v < 10 {
        (48u8 + v) as char
    } else {
        (55u8 + v) as char
    }
}

/// Column `i` of a hex-dump line: a separating space before every column
/// but the first, one more before column 8, then the byte's two digits, or
/// two spaces where the line has no byte there.
pub open spec fn hex_column(bytes: Seq<u8>, i: int) -> Seq<char> {
    (if i > 0 {
        " "@
    } else {
        Seq::empty()
    }) + (if i == 8 {
        " "@
    } else {
        Seq::empty()
    }) + (if i < bytes.len() {
        seq![hex_digit(bytes[i] as int / 16), hex_digit(bytes[i] as int % 16)]
    } else {
        "  "@
    })
}

/// Columns `0..n` of a hex-dump line.
pub open spec fn hex_columns(bytes: Seq<u8>, n: int) -> Seq<char>
    decreases n,
{
    if n <= 0 {
        Seq::empty()
    } else {
        hex_columns(bytes, n - 1) + hex_column(bytes, n - 1)
    }
}

/// A hex-dump line: sixteen columns, or one per byte where there are more.
pub open spec fn hex_line(bytes: Seq<u8>) -> Seq<char> {
    hex_columns(bytes, if bytes.len() > 16 { bytes.len() as int } else { 16 })
}

/// Formats the bytes of one dump line as hexadecimal columns (see `hex_line`).
pub fn format_hex_line(bytes: &[u8]) -> (r: String)
    ensures
        r@ == hex_line(bytes@),
{
    let n: usize = if bytes.len() > 16 {
        bytes.len()
    } else {
        16
    };
    let mut r = String::new();
    let mut i: usize = 0;
    while i < n
        invariant
            i <= n,
            n == (if bytes@.len() > 16 { bytes@.len() as int } else { 16 }),
            r@ == hex_columns(bytes@, i as int),
        decreases n - i,
    {
        let ghost before = r@;
        if i > 0 {
            push_str(&mut r, " ");
        }
        if i == 8 {
            push_str(&mut r, " ");
        }
        if i < bytes.len() {
            let b = bytes[i];
            push_char(&mut r, hex_digit_of(b / 16));
            push_char(&mut r, hex_digit_of(b % 16));
        } else {
            push_str(&mut r, "  ");
        }
        assert(r@ =~= before + hex_column(bytes@, i as int));
        i = i + 1;
    }
    r
}

/// The printable form of a byte: itself when it is printable ASCII, else '.'.
pub open spec fn ascii_cell(b: u8) -> char {
    if 0x20 <= b <= 0x7E {
        b as char
    } else {
        '.'
    }
}

/// Formats the bytes of one dump line as printable characters.
pub fn format_ascii_line(bytes: &[u8]) -> (r: String)
    ensures
        r@ == bytes@.map_values(|b: u8| ascii_cell(b)),
{
    let mut r = String::new();
    let mut i: usize = 0;
    while i < bytes.len()
        invariant
            i <= bytes@.len(),
            r@ == bytes@.subrange(0, i as int).map_values(|b: u8| ascii_cell(b)),
        decreases bytes@.len() - i,
    {
        let b = bytes[i];
        let c = if 0x20 <= b && b <= 0x7E {
            b as char
        } else {
            '.'
        };
        push_char(&mut r, c);
        i = i + 1;
        assert(r@ =~= bytes@.subrange(0, i as int).map_values(|b: u8| ascii_cell(b)));
    }
    assert(bytes@.subrange(0, bytes@.len() as int) =~= bytes@);
    r
}

} // verus!
