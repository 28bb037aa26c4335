use vstd::prelude::*;

verus! {

/// The eight little-endian bytes of `v`.
pub open spec fn le_bytes64(v: u64) -> Seq<u8> {
    seq![
        v as u8,
        (v >> 8u64) as u8,
        (v >> 16u64) as u8,
        (v >> 24u64) as u8,
        (v >> 32u64) as u8,
        (v >> 40u64) as u8,
        (v >> 48u64) as u8,
        (v >> 56u64) as u8,
    ]
}

fn push_bytes(code: &mut Vec<u8>, bytes: &[u8])
    ensures
        final(code)@ == old(code)@ + bytes@,
{
    let mut i: usize = 0;
    while i < bytes.len()
        invariant
            i <= bytes@.len(),
            code@ == old(code)@ + bytes@.subrange(0, i as int),
        decreases bytes@.len() - i,
    {
        code.push(bytes[i]);
        i = i + 1;
        assert(code@ =~= old(code)@ + bytes@.subrange(0, i as int));
    }
    assert(bytes@.subrange(0, bytes@.len() as int) =~= bytes@);
}

fn push_u64(code: &mut Vec<u8>, v: u64)
    ensures
        final(code)@ == old(code)@ + le_bytes64(v),
{
    code.push(#[verifier::truncate] (v as u8));
    code.push(#[verifier::truncate] ((v >> 8u64) as u8));
    code.push(#[verifier::truncate] ((v >> 16u64) as u8));
    code.push(#[verifier::truncate] ((v >> 24u64) as u8));
    code.push(#[verifier::truncate] ((v >> 32u64) as u8));
    code.push(#[verifier::truncate] ((v >> 40u64) as u8));
    code.push(#[verifier::truncate] ((v >> 48u64) as u8));
    code.push(#[verifier::truncate] ((v >> 56u64) as u8));
    assert(final(code)@ =~= old(code)@ + le_bytes64(v));
}

/// The x64 stub that a hijacked thread runs: it saves the flags and the
/// volatile registers, aligns the stack and reserves the 32-byte scratch
/// area, calls the loader at `loader` with `path` as its argument, restores
/// everything, and returns to `resume_at` through an exchange on the stack
/// so that no register keeps a changed value.
pub open spec fn hijack_code(path: u64, loader: u64, resume_at: u64) -> Seq<u8> {
    seq![
        0x9Cu8, 0x50, 0x51, 0x52, 0x41, 0x50, 0x41, 0x51, 0x41, 0x52, 0x41, 0x53, 0x55, 0x48, 0x89,
        0xE5, 0x48, 0x83, 0xE4, 0xF0, 0x48, 0x83, 0xEC, 0x20, 0x48, 0xB9,
    ] + le_bytes64(path) + seq![0x48u8, 0xB8] + le_bytes64(loader) + seq![
        0xFFu8, 0xD0, 0x48, 0x89, 0xEC, 0x5D, 0x41, 0x5B, 0x41, 0x5A, 0x41, 0x59, 0x41, 0x58,
        0x5A, 0x59, 0x58, 0x9D, 0x50, 0x48, 0xB8,
    ] + le_bytes64(resume_at) + seq![0x48u8, 0x87, 0x04, 0x24, 0xC3]
}

/// Builds the thread-hijack stub (see `hijack_code`).
pub fn hijack_shellcode(path: u64, loader: u64, resume_at: u64) -> (r: Vec<u8>)
    ensures
        r@ == hijack_code(path, loader, resume_at),
        r@.len() <= HIJACK_CODE_ROOM,
{
    let mut code: Vec<u8> = Vec::new();
    // pushfq; push rax, rcx, rdx, r8, r9, r10, r11; push rbp; mov rbp, rsp;
    // and rsp, -16; sub rsp, 0x20; mov rcx, imm64
    let prologue: [u8; 26] = [
        0x9C, 0x50, 0x51, 0x52, 0x41, 0x50, 0x41, 0x51, 0x41, 0x52, 0x41, 0x53, 0x55, 0x48, 0x89,
        0xE5, 0x48, 0x83, 0xE4, 0xF0, 0x48, 0x83, 0xEC, 0x20, 0x48, 0xB9,
    ];
    push_bytes(&mut code, prologue.as_slice());
    push_u64(&mut code, path);
    // mov rax, imm64
    let load_rax: [u8; 2] = [0x48, 0xB8];
    push_bytes(&mut code, load_rax.as_slice());
    push_u64(&mut code, loader);
    // call rax; mov rsp, rbp; pop rbp; pop r11, r10, r9, r8, rdx, rcx, rax;
    // popfq; push rax; mov rax, imm64
    let epilogue: [u8; 21] = [
        0xFF, 0xD0, 0x48, 0x89, 0xEC, 0x5D, 0x41, 0x5B, 0x41, 0x5A, 0x41, 0x59, 0x41, 0x58, 0x5A,
        0x59, 0x58, 0x9D, 0x50, 0x48, 0xB8,
    ];
    push_bytes(&mut code, epilogue.as_slice());
    push_u64(&mut code, resume_at);
    // xchg [rsp], rax; ret
    let tail: [u8; 5] = [0x48, 0x87, 0x04, 0x24, 0xC3];
    push_bytes(&mut code, tail.as_slice());
    proof {
        assert(prologue@ =~= seq![
            0x9Cu8, 0x50, 0x51, 0x52, 0x41, 0x50, 0x41, 0x51, 0x41, 0x52, 0x41, 0x53, 0x55, 0x48,
            0x89, 0xE5, 0x48, 0x83, 0xE4, 0xF0, 0x48, 0x83, 0xEC, 0x20, 0x48, 0xB9,
        ]);
        assert(load_rax@ =~= seq![0x48u8, 0xB8]);
        assert(epilogue@ =~= seq![
            0xFFu8, 0xD0, 0x48, 0x89, 0xEC, 0x5D, 0x41, 0x5B, 0x41, 0x5A, 0x41, 0x59, 0x41, 0x58,
            0x5A, 0x59, 0x58, 0x9D, 0x50, 0x48, 0xB8,
        ]);
        assert(tail@ =~= seq![0x48u8, 0x87, 0x04, 0x24, 0xC3]);
        assert(code@ =~= hijack_code(path, loader, resume_at));
    }
    code
}

/// Room reserved for the hijack stub after the path string.
pub const HIJACK_CODE_ROOM: usize = 128;

/// The x64 stub that calls a mapped image's entry point as the loader would
/// on process attach: module handle `base`, reason 1, reserved null, inside
/// a 0x28-byte frame that keeps the stack aligned.
pub open spec fn entry_call_code(base: u64, entry: u64) -> Seq<u8> {
    seq![0x48u8, 0x83, 0xEC, 0x28, 0x48, 0xB9] + le_bytes64(base) + seq![
        0x48u8, 0xC7, 0xC2, 0x01, 0x00, 0x00, 0x00, 0x4D, 0x31, 0xC0, 0x48, 0xB8,
    ] + le_bytes64(entry) + seq![0xFFu8, 0xD0, 0x48, 0x83, 0xC4, 0x28, 0xC3]
}

/// Builds the entry-point stub for an image mapped at `base` whose entry
/// point lies `entry_rva` bytes into it.
pub fn entry_point_shellcode(base: u64, entry_rva: u32) -> (r: Vec<u8>)
    ensures
        r@ == entry_call_code(base, base.wrapping_add(entry_rva as u64)),
{
    let entry = base.wrapping_add(entry_rva as u64);
    let mut code: Vec<u8> = Vec::new();
    // sub rsp, 0x28; mov rcx, imm64
    let head: [u8; 6] = [0x48, 0x83, 0xEC, 0x28, 0x48, 0xB9];
    push_bytes(&mut code, head.as_slice());
    push_u64(&mut code, base);
    // mov rdx, 1; xor r8, r8; mov rax, imm64
    let args: [u8; 12] = [0x48, 0xC7, 0xC2, 0x01, 0x00, 0x00, 0x00, 0x4D, 0x31, 0xC0, 0x48, 0xB8];
    push_bytes(&mut code, args.as_slice());
    push_u64(&mut code, entry);
    // call rax; add rsp, 0x28; ret
    let tail: [u8; 7] = [0xFF, 0xD0, 0x48, 0x83, 0xC4, 0x28, 0xC3];
    push_bytes(&mut code, tail.as_slice());
    proof {
        assert(head@ =~= seq![0x48u8, 0x83, 0xEC, 0x28, 0x48, 0xB9]);
        assert(args@ =~= seq![
            0x48u8, 0xC7, 0xC2, 0x01, 0x00, 0x00, 0x00, 0x4D, 0x31, 0xC0, 0x48, 0xB8,
        ]);
        assert(tail@ =~= seq![0xFFu8, 0xD0, 0x48, 0x83, 0xC4, 0x28, 0xC3]);
        assert(code@ =~= entry_call_code(base, entry));
    }
    code
}

/// The UTF-16 code units of one character.
pub open spec fn utf16_units(c: char) -> Seq<u16> {
    let v = c as u32;
    if v < 0x10000 {
        seq![v as u16]
    } else {
        let u = v - 0x10000;
        seq![(0xD800 + u / 1024) as u16, (0xDC00 + u % 1024) as u16]
    }
}

/// The UTF-16 encoding of a character sequence.
pub open spec fn utf16(s: Seq<char>) -> Seq<u16>
    decreases s.len(),
{
    if s.len() == 0 {
        Seq::empty()
    } else {
        utf16_units(s[0]) + utf16(s.drop_first())
    }
}

/// Relies on `str::encode_utf16`: the string's UTF-16 code units, in order.
#[verifier::external_body]
fn encode_utf16(s: &str) -> (r: Vec<u16>)
    ensures
        r@ == utf16(s@),
{
    s.encode_utf16().collect()
}

/// The path as a NUL-terminated UTF-16 string, the form the loader takes.
pub fn wide_path(path: &str) -> (r: Vec<u16>)
    ensures
        r@ == utf16(path@).push(0u16),
{
    let mut w = encode_utf16(path);
    w.push(0u16);
    w
}

} // verus!

verus! {

/// Where the hijack stub goes in the staging allocation, and how large that
/// allocation is: the NUL-terminated path of `units` UTF-16 units comes
/// first, then room for the stub. None where the sizes do not fit a `usize`.
pub fn hijack_layout(units: usize) -> (r: Option<(usize, usize)>)
    ensures
        2 * units + HIJACK_CODE_ROOM <= usize::MAX <==> r is Some,
        r matches Some(p) ==> p.0 == 2 * units && p.1 == 2 * units + HIJACK_CODE_ROOM,
{
    if units > (usize::MAX - HIJACK_CODE_ROOM) / 2 {
        None
    } else {
        Some((2 * units, 2 * units + HIJACK_CODE_ROOM))
    }
}

} // verus!
