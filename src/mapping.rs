use vstd::prelude::*;

use crate::bytes::{fits, le16, le32, le64, put_le32, put_le64, read_u16, read_u32, read_u64, write_u32, write_u64};
use crate::inject::{invalid_pe, pe_error_text, MiscError};
use crate::pe::{image_check, image_fields, parse_image, DataDirectory, PeImage, PeSection};
use crate::text::{cstring_at, cstring_bytes};

verus! {

pub open spec fn min(a: int, b: int) -> int {
    if a <= b {
        a
    } else {
        b
    }
}

/// `img` with `n` bytes at `dst` replaced by the `n` bytes of `src` at `from`.
pub open spec fn copy_into(img: Seq<u8>, dst: int, src: Seq<u8>, from: int, n: int) -> Seq<u8> {
    img.subrange(0, dst) + src.subrange(from, from + n) + img.subrange(dst + n, img.len() as int)
}

/// The zero-filled image of `size` bytes whose start holds the file's headers,
/// cut at the declared header size, the file's length and the image size.
pub open spec fn header_image(d: Seq<u8>, size_of_headers: int, size: int) -> Seq<u8> {
    let n = min(min(size_of_headers, d.len() as int), size);
    Seq::new(size as nat, |k: int| if k < n { d[k] } else { 0u8 })
}

/// How many raw bytes of a section are copied into an image of `size` bytes:
/// none for a section without raw data, or whose data or address lies outside
/// the file or the image; otherwise as many as the file, the section and the
/// image all hold.
pub open spec fn section_copy_len(d: Seq<u8>, size: int, s: PeSection) -> int {
    if s.raw_data_size == 0 || s.raw_data_offset == 0 || s.raw_data_offset >= d.len()
        || s.virtual_address >= size {
        0
    } else {
        min(min(s.raw_data_size as int, d.len() - s.raw_data_offset), size - s.virtual_address)
    }
}

/// The image after copying the raw data of sections `i..` into it, in order.
pub open spec fn map_sections(img: Seq<u8>, d: Seq<u8>, secs: Seq<PeSection>, i: int) -> Seq<u8>
    decreases secs.len() - i,
{
    if i < 0 || i >= secs.len() {
        img
    } else {
        let s = secs[i];
        let n = section_copy_len(d, img.len() as int, s);
        let next = if n == 0 {
            img
        } else {
            copy_into(img, s.virtual_address as int, d, s.raw_data_offset as int, n)
        };
        map_sections(next, d, secs, i + 1)
    }
}

/// The image laid out at its virtual offsets: headers first, then each section.
pub open spec fn mapped_image(d: Seq<u8>, img: PeImage) -> Seq<u8> {
    map_sections(
        header_image(d, img.size_of_headers as int, img.size_of_image as int),
        d,
        img.sections@,
        0,
    )
}

fn min_usize(a: usize, b: usize) -> (r: usize)
    ensures
        r == min(a as int, b as int),
{
    if a <= b {
        a
    } else {
        b
    }
}

fn copy_bytes(dst: &mut Vec<u8>, at: usize, src: &[u8], from: usize, n: usize)
    requires
        at + n <= old(dst)@.len(),
        from + n <= src@.len(),
    ensures
        final(dst)@ == copy_into(old(dst)@, at as int, src@, from as int, n as int),
{
    let dlen = dst.len();
    let slen = src.len();
    let mut k: usize = 0;
    while k < n
        invariant
            k <= n,
            dlen == dst@.len(),
            slen == src@.len(),
            at + n <= dst@.len(),
            from + n <= src@.len(),
            dst@.len() == old(dst)@.len(),
            forall|j: int|
                0 <= j < dst@.len() ==> #[trigger] dst@[j] == if at <= j < at + k {
                    src@[from + j - at]
                } else {
                    old(dst)@[j]
                },
        decreases n - k,
    {
        dst.set(at + k, src[from + k]);
        k = k + 1;
    }
    assert(dst@ =~= copy_into(old(dst)@, at as int, src@, from as int, n as int));
}

/// Lays a parsed image out in a fresh buffer of its declared size: the headers
/// at offset zero and each section's raw data at its virtual address.
pub fn map_image(data: &[u8], img: &PeImage) -> (r: Vec<u8>)
    ensures
        r@ == mapped_image(data@, *img),
        r@.len() == img.size_of_image,
{
    let size = img.size_of_image as usize;
    let mut image: Vec<u8> = Vec::new();
    let header_len = min_usize(min_usize(img.size_of_headers as usize, data.len()), size);
    let mut k: usize = 0;
    while k < size
        invariant
            k <= size,
            header_len <= data@.len(),
            header_len <= size,
            image@.len() == k,
            forall|j: int| 0 <= j < k ==> #[trigger] image@[j] == (if j < header_len {
                data@[j]
            } else {
                0u8
            }),
        decreases size - k,
    {
        if k < header_len {
            image.push(data[k]);
        } else {
            image.push(0u8);
        }
        k = k + 1;
    }
    assert(image@ =~= header_image(data@, img.size_of_headers as int, img.size_of_image as int));
    let ghost start = image@;
    let mut i: usize = 0;
    while i < img.sections.len()
        invariant
            i <= img.sections@.len(),
            image@.len() == size,
            map_sections(image@, data@, img.sections@, i as int) == map_sections(
                start,
                data@,
                img.sections@,
                0,
            ),
        decreases img.sections@.len() - i,
    {
        let s = img.sections[i];
        let src = s.raw_data_offset as usize;
        let dst = s.virtual_address as usize;
        if s.raw_data_size != 0 && src != 0 && src < data.len() && dst < size {
            let n = min_usize(min_usize(s.raw_data_size as usize, data.len() - src), size - dst);
            copy_bytes(&mut image, dst, data, src, n);
        }
        i = i + 1;
    }
    image
}

} // verus!

verus! {

pub const REL_BASED_HIGHLOW: u16 = 3;

pub const REL_BASED_DIR64: u16 = 10;

/// The image after applying one relocation entry of a block at `block_rva`:
/// a DIR64 entry adds `delta` to the 64-bit field it names, a HIGHLOW entry
/// adds the low half of `delta` to the 32-bit field it names, both modulo
/// their width; any other type, and a field that would end past the image,
/// leaves the image as it is.
pub open spec fn reloc_entry(img: Seq<u8>, block_rva: int, entry: u16, delta: u64) -> Seq<u8> {
    let t = block_rva + (entry & 0x0FFFu16);
    let kind = entry >> 12u16;
    if kind == 10 && t + 8 <= img.len() {
        put_le64(img, t, ((le64(img, t) + delta) % 0x1_0000_0000_0000_0000) as u64)
    } else if kind == 3 && t + 4 <= img.len() {
        put_le32(img, t, ((le32(img, t) + delta % 0x1_0000_0000) % 0x1_0000_0000) as u32)
    } else {
        img
    }
}

/// The image after applying entries `i..n` of the block whose header is at `off`.
pub open spec fn reloc_entries(
    img: Seq<u8>,
    off: int,
    block_rva: int,
    i: int,
    n: int,
    delta: u64,
) -> Seq<u8>
    decreases n - i,
{
    if i < 0 || i >= n || off + 8 + 2 * i + 2 > img.len() {
        img
    } else {
        reloc_entries(
            reloc_entry(img, block_rva, le16(img, off + 8 + 2 * i) as u16, delta),
            off,
            block_rva,
            i + 1,
            n,
            delta,
        )
    }
}

/// The image after applying the relocation blocks from `off` up to `end`.
/// Each block holds a page RVA, its own size, then 16-bit entries; the walk
/// stops at a block header that does not fit, or a size below the header's.
pub open spec fn reloc_blocks(img: Seq<u8>, off: int, end: int, delta: u64) -> Seq<u8>
    decreases end + 0x1_0000_0000 - off,
{
    if off < 0 || off + 8 > end || off + 8 > img.len() {
        img
    } else {
        let block_size = le32(img, off + 4);
        if block_size < 8 {
            img
        } else {
            reloc_blocks(
                reloc_entries(img, off, le32(img, off), 0, (block_size - 8) / 2, delta),
                off + block_size,
                end,
                delta,
            )
        }
    }
}

/// The image after relocating it by `delta` through the directory `dir`; an
/// absent directory or a zero delta leaves it as it is.
pub open spec fn relocated(img: Seq<u8>, dir: DataDirectory, delta: u64) -> Seq<u8> {
    if dir.rva == 0 || dir.size == 0 || delta == 0 {
        img
    } else {
        reloc_blocks(img, dir.rva as int, dir.rva + dir.size, delta)
    }
}

fn apply_entry(image: &mut Vec<u8>, block_rva: u64, entry: u16, delta: u64)
    requires
        block_rva < 0x1_0000_0000,
    ensures
        final(image)@ == reloc_entry(old(image)@, block_rva as int, entry, delta),
{
    let len = image.len();
    let t = block_rva + (entry & 0x0FFFu16) as u64;
    let kind = entry >> 12u16;
    assert((entry & 0x0FFFu16) <= 0x0FFFu16) by (bit_vector);
    if kind == REL_BASED_DIR64 && t <= len as u64 && 8 <= len as u64 - t {
        let v = read_u64(image.as_slice(), t as usize);
        let nv = if v > u64::MAX - delta {
            v - (u64::MAX - delta) - 1
        } else {
            v + delta
        };
        write_u64(image, t as usize, nv);
    } else if kind == REL_BASED_HIGHLOW && t <= len as u64 && 4 <= len as u64 - t {
        let v = read_u32(image.as_slice(), t as usize);
        let d = (delta % 0x1_0000_0000) as u32;
        let nv = if v > u32::MAX - d {
            v - (u32::MAX - d) - 1
        } else {
            v + d
        };
        write_u32(image, t as usize, nv);
    }
}

/// Applies the base relocations of a mapped image for a load at `delta`
/// bytes from its preferred base. With a zero delta, or no relocation
/// directory, the image is left byte for byte as it was.
pub fn apply_relocations(image: &mut Vec<u8>, dir: DataDirectory, delta: u64)
    ensures
        final(image)@ == relocated(old(image)@, dir, delta),
        final(image)@.len() == old(image)@.len(),
        delta == 0 ==> final(image)@ == old(image)@,
{
    if dir.rva == 0 || dir.size == 0 || delta == 0 {
        return;
    }
    let end: u64 = dir.rva as u64 + dir.size as u64;
    let mut off: u64 = dir.rva as u64;
    while off + 8 <= end && off + 8 <= image.len() as u64
        invariant
            off <= end + 0x1_0000_0000,
            end <= 0x2_0000_0000,
            image@.len() == old(image)@.len(),
            reloc_blocks(image@, off as int, end as int, delta) == reloc_blocks(
                old(image)@,
                dir.rva as int,
                end as int,
                delta,
            ),
        ensures
            reloc_blocks(image@, off as int, end as int, delta) == image@,
            image@.len() == old(image)@.len(),
            reloc_blocks(image@, off as int, end as int, delta) == reloc_blocks(
                old(image)@,
                dir.rva as int,
                end as int,
                delta,
            ),
        decreases end + 0x1_0000_0000 - off,
    {
        let block_rva = read_u32(image.as_slice(), off as usize) as u64;
        let block_size = read_u32(image.as_slice(), off as usize + 4) as u64;
        if block_size < 8 {
            break;
        }
        let n = (block_size - 8) / 2;
        let ghost block_start = image@;
        let mut i: u64 = 0;
        while i < n && off + 8 + 2 * i + 2 <= image.len() as u64
            invariant
                i <= n,
                n < 0x1_0000_0000,
                off + 8 <= end,
                end <= 0x2_0000_0000,
                block_rva < 0x1_0000_0000,
                off + 8 <= image@.len(),
                image@.len() == old(image)@.len(),
                reloc_entries(image@, off as int, block_rva as int, i as int, n as int, delta)
                    == reloc_entries(block_start, off as int, block_rva as int, 0, n as int, delta),
            ensures
                reloc_entries(image@, off as int, block_rva as int, i as int, n as int, delta)
                    == image@,
                image@.len() == old(image)@.len(),
                reloc_entries(image@, off as int, block_rva as int, i as int, n as int, delta)
                    == reloc_entries(block_start, off as int, block_rva as int, 0, n as int, delta),
            decreases n - i,
        {
            let entry = read_u16(image.as_slice(), (off + 8 + 2 * i) as usize);
            apply_entry(image, block_rva, entry, delta);
            i = i + 1;
        }
        off = off + block_size;
    }
}

} // verus!

verus! {

/// Relocating a mapped image by a zero delta leaves it byte for byte as the
/// section copy made it.
pub proof fn relocation_by_zero_is_identity(img: Seq<u8>, dir: DataDirectory)
    ensures
        relocated(img, dir, 0) == img,
{
}

/// How an import-address-table slot names what it imports.
#[derive(Clone, Debug)]
pub enum ImportSymbol {
    Ordinal(u16),
    Name(Vec<u8>),
    /// The hint/name entry lies outside the image: the slot is cleared.
    Missing,
}

/// A slot of the import address table, at its offset in the mapped image.
#[derive(Clone, Debug)]
pub struct ImportSlot {
    pub iat_offset: usize,
    pub symbol: ImportSymbol,
}

/// The slots to fill with addresses exported by one module.
#[derive(Clone, Debug)]
pub struct ImportRequest {
    pub dll_name: Vec<u8>,
    pub slots: Vec<ImportSlot>,
}

/// A symbol as plain values: 0 with an ordinal, 1 with a name, 2 for none.
pub open spec fn symbol_view(s: ImportSymbol) -> (int, u16, Seq<u8>) {
    match s {
        ImportSymbol::Ordinal(o) => (0, o, Seq::empty()),
        ImportSymbol::Name(n) => (1, 0, n@),
        ImportSymbol::Missing => (2, 0, Seq::empty()),
    }
}

pub open spec fn slot_view(s: ImportSlot) -> (int, (int, u16, Seq<u8>)) {
    (s.iat_offset as int, symbol_view(s.symbol))
}

pub open spec fn slots_view(v: Seq<ImportSlot>) -> Seq<(int, (int, u16, Seq<u8>))> {
    v.map_values(|s: ImportSlot| slot_view(s))
}

pub open spec fn request_view(r: ImportRequest) -> (Seq<u8>, Seq<(int, (int, u16, Seq<u8>))>) {
    (r.dll_name@, slots_view(r.slots@))
}

pub open spec fn requests_view(v: Seq<ImportRequest>) -> Seq<
    (Seq<u8>, Seq<(int, (int, u16, Seq<u8>))>),
> {
    v.map_values(|r: ImportRequest| request_view(r))
}

/// What a non-zero 64-bit thunk of a mapped image asks for.
pub open spec fn mapped_symbol(img: Seq<u8>, v: u64) -> (int, u16, Seq<u8>) {
    if v & 0x8000_0000_0000_0000u64 != 0 {
        (0, (v & 0xFFFFu64) as u16, Seq::empty())
    } else if (v & 0x7FFF_FFFFu64) + 2 < img.len() {
        (1, 0, cstring_bytes(img, (v & 0x7FFF_FFFFu64) + 2))
    } else {
        (2, 0, Seq::empty())
    }
}

/// The slots of one descriptor: thunks read at `thunk`, slots at `iat`, both
/// advancing by eight bytes until a zero thunk or either runs past the image.
pub open spec fn mapped_slots(img: Seq<u8>, thunk: int, iat: int) -> Seq<
    (int, (int, u16, Seq<u8>)),
>
    decreases img.len() - thunk,
{
    if thunk < 0 || iat < 0 || thunk + 8 > img.len() || iat + 8 > img.len() {
        Seq::empty()
    } else {
        let v = le64(img, thunk) as u64;
        if v == 0 {
            Seq::empty()
        } else {
            seq![(iat, mapped_symbol(img, v))] + mapped_slots(img, thunk + 8, iat + 8)
        }
    }
}

/// The requests of the descriptor array at `desc` of a mapped image.
pub open spec fn mapped_requests(img: Seq<u8>, desc: int) -> Seq<
    (Seq<u8>, Seq<(int, (int, u16, Seq<u8>))>),
>
    decreases img.len() - desc,
{
    if desc < 0 || desc + 20 > img.len() {
        Seq::empty()
    } else {
        let ilt = le32(img, desc);
        let name = le32(img, desc + 12);
        let iat = le32(img, desc + 16);
        if ilt == 0 && name == 0 {
            Seq::empty()
        } else {
            let thunk = if ilt != 0 {
                ilt
            } else {
                iat
            };
            seq![(cstring_bytes(img, name), mapped_slots(img, thunk, iat))] + mapped_requests(
                img,
                desc + 20,
            )
        }
    }
}

fn descriptor_slots(image: &Vec<u8>, thunk: usize, iat: usize) -> (r: Vec<ImportSlot>)
    ensures
        slots_view(r@) == mapped_slots(image@, thunk as int, iat as int),
{
    let len = image.len();
    let mut out: Vec<ImportSlot> = Vec::new();
    let mut t = thunk;
    let mut a = iat;
    while fits(len, t, 8) && fits(len, a, 8)
        invariant
            len == image@.len(),
            a - t == iat - thunk,
            slots_view(out@) + mapped_slots(image@, t as int, a as int) == mapped_slots(
                image@,
                thunk as int,
                iat as int,
            ),
        ensures
            mapped_slots(image@, t as int, a as int) =~= Seq::<(int, (int, u16, Seq<u8>))>::empty(),
            slots_view(out@) + mapped_slots(image@, t as int, a as int) == mapped_slots(
                image@,
                thunk as int,
                iat as int,
            ),
        decreases len - t,
    {
        let v = read_u64(image.as_slice(), t);
        if v == 0 {
            break;
        }
        let hint = (v & 0x7FFF_FFFFu64) as usize;
        assert(v & 0x7FFF_FFFFu64 <= 0x7FFF_FFFFu64) by (bit_vector);
        let symbol = if v & 0x8000_0000_0000_0000u64 != 0 {
            ImportSymbol::Ordinal((v & 0xFFFFu64) as u16)
        } else if hint < len && 2 < len - hint {
            ImportSymbol::Name(cstring_at(image.as_slice(), hint + 2))
        } else {
            ImportSymbol::Missing
        };
        let ghost before = slots_view(out@);
        let slot = ImportSlot { iat_offset: a, symbol };
        assert(slot_view(slot) == (a as int, mapped_symbol(image@, v)));
        out.push(slot);
        assert(slots_view(out@) =~= before + seq![slot_view(slot)]);
        t = t + 8;
        a = a + 8;
    }
    assert(slots_view(out@) + mapped_slots(image@, t as int, a as int) =~= slots_view(out@));
    out
}

/// Walks the import descriptors of a mapped image (RVAs read as offsets into
/// it) and lists, module by module, the address-table slots to fill and the
/// symbol each one names. Nothing is listed without an import directory.
pub fn import_requests(image: &Vec<u8>, dir: DataDirectory) -> (r: Vec<ImportRequest>)
    ensures
        requests_view(r@) == (if dir.rva == 0 || dir.size == 0 {
            Seq::empty()
        } else {
            mapped_requests(image@, dir.rva as int)
        }),
{
    let mut out: Vec<ImportRequest> = Vec::new();
    if dir.rva == 0 || dir.size == 0 {
        return out;
    }
    let len = image.len();
    let start = dir.rva as usize;
    let mut desc = start;
    while fits(len, desc, 20)
        invariant
            len == image@.len(),
            requests_view(out@) + mapped_requests(image@, desc as int) == mapped_requests(
                image@,
                start as int,
            ),
        ensures
            mapped_requests(image@, desc as int) =~= Seq::<
                (Seq<u8>, Seq<(int, (int, u16, Seq<u8>))>),
            >::empty(),
            requests_view(out@) + mapped_requests(image@, desc as int) == mapped_requests(
                image@,
                start as int,
            ),
        decreases len - desc,
    {
        let ilt = read_u32(image.as_slice(), desc);
        let name = read_u32(image.as_slice(), desc + 12);
        let iat = read_u32(image.as_slice(), desc + 16);
        if ilt == 0 && name == 0 {
            break;
        }
        let thunk = if ilt != 0 {
            ilt
        } else {
            iat
        };
        let dll_name = cstring_at(image.as_slice(), name as usize);
        let slots = descriptor_slots(image, thunk as usize, iat as usize);
        let ghost before = requests_view(out@);
        let req = ImportRequest { dll_name, slots };
        out.push(req);
        assert(requests_view(out@) =~= before + seq![request_view(req)]);
        desc = desc + 20;
    }
    assert(requests_view(out@) + mapped_requests(image@, desc as int) =~= requests_view(out@));
    out
}

/// Stores a resolved address in an import-address-table slot; a slot that
/// does not lie wholly inside the image is left alone.
pub fn write_iat_entry(image: &mut Vec<u8>, offset: usize, address: u64)
    ensures
        final(image)@ == (if offset + 8 <= old(image)@.len() {
            put_le64(old(image)@, offset as int, address)
        } else {
            old(image)@
        }),
{
    if fits(image.len(), offset, 8) {
        write_u64(image, offset, address);
    }
}

} // verus!

verus! {

/// A parsed image and its local copy laid out at virtual offsets.
#[derive(Debug)]
pub struct StagedImage {
    pub image: PeImage,
    pub bytes: Vec<u8>,
}

/// Parses the file of a library to map by hand and lays it out locally.
/// This happens before anything touches the target, so a malformed file
/// fails here, with the check that it failed.
pub fn stage_image(data: &[u8]) -> (r: Result<StagedImage, MiscError>)
    ensures
        match image_check(data@) {
            Err(e) => r matches Err(MiscError::InvalidPE(m)) && m@ == pe_error_text(e)@,
            Ok(h) => r matches Ok(s) && image_fields(data@, h, s.image) && s.bytes@ == mapped_image(
                data@,
                s.image,
            ),
        },
{
    match parse_image(data) {
        Err(e) => Err(invalid_pe(e)),
        Ok(image) => {
            let bytes = map_image(data, &image);
            Ok(StagedImage { image, bytes })
        },
    }
}

/// The distance from an image's preferred base to where it was placed,
/// modulo 2^64.
pub open spec fn load_delta(image_base: u64, remote_base: u64) -> u64 {
    remote_base.wrapping_sub(image_base)
}

/// Relocates a staged image for the base at which the target allocated it.
pub fn relocate_staged(staged: &mut StagedImage, remote_base: u64)
    ensures
        final(staged).image == old(staged).image,
        final(staged).bytes@ == relocated(
            old(staged).bytes@,
            old(staged).image.relocation_directory,
            load_delta(old(staged).image.image_base, remote_base),
        ),
{
    let delta = remote_base.wrapping_sub(staged.image.image_base);
    apply_relocations(&mut staged.bytes, staged.image.relocation_directory, delta);
}

} // verus!
