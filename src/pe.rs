use vstd::prelude::*;

use crate::bytes::{fits, le16, le32, le64, read_u16, read_u32, read_u64};

verus! {

/// Why a buffer is not an acceptable PE image.
#[derive(Clone, Copy, Debug, PartialEq, Eq, Structural)]
pub enum PeError {
    TooSmallForDosHeader,
    BadDosMagic,
    TooSmallForPeSignature,
    BadPeSignature,
    TooSmallForCoffHeader,
    TooSmallForOptionalHeader,
    UnsupportedBitWidth,
    OptionalHeaderTooSmall,
    EntryPointOutOfRange,
    SectionOutOfRange,
    DirectoryOutOfRange,
}

/// Where the headers of a PE image lie, and its layout width.
#[derive(Clone, Copy, Debug, PartialEq, Eq, Structural)]
pub struct PeHeaders {
    pub pe_offset: usize,
    pub section_count: usize,
    pub optional_header_offset: usize,
    pub optional_header_size: usize,
    pub is_64: bool,
}

/// One entry of the section table.
#[derive(Clone, Copy, Debug, PartialEq, Eq, Structural)]
pub struct PeSection {
    pub virtual_address: u32,
    pub virtual_size: u32,
    pub raw_data_size: u32,
    pub raw_data_offset: u32,
}

/// An entry of the data-directory array: where a table lies, as an RVA and a size.
#[derive(Clone, Copy, Debug, PartialEq, Eq, Structural)]
pub struct DataDirectory {
    pub rva: u32,
    pub size: u32,
}

/// A parsed 64-bit image, as the manual mapper needs it.
#[derive(Clone, Debug)]
pub struct PeImage {
    pub headers: PeHeaders,
    pub entry_point_rva: u32,
    pub image_base: u64,
    pub size_of_image: u32,
    pub size_of_headers: u32,
    pub import_directory: DataDirectory,
    pub relocation_directory: DataDirectory,
    pub sections: Vec<PeSection>,
}

pub const DOS_MAGIC: u16 = 0x5A4D;

pub const PE_SIGNATURE: u32 = 0x4550;

pub const PE32_MAGIC: u16 = 0x10b;

pub const PE32_PLUS_MAGIC: u16 = 0x20b;

pub const SECTION_HEADER_SIZE: usize = 40;

/// What the DOS header, PE signature, COFF header and optional-header magic say.
pub open spec fn headers_spec(d: Seq<u8>) -> Result<PeHeaders, PeError> {
    if d.len() < 64 {
        Err(PeError::TooSmallForDosHeader)
    } else if le16(d, 0) != 0x5A4D {
        Err(PeError::BadDosMagic)
    } else {
        let pe = le32(d, 60);
        if d.len() < pe + 4 {
            Err(PeError::TooSmallForPeSignature)
        } else if le32(d, pe) != 0x4550 {
            Err(PeError::BadPeSignature)
        } else if d.len() < pe + 24 {
            Err(PeError::TooSmallForCoffHeader)
        } else if d.len() < pe + 26 {
            Err(PeError::TooSmallForOptionalHeader)
        } else if le16(d, pe + 24) != 0x10b && le16(d, pe + 24) != 0x20b {
            Err(PeError::UnsupportedBitWidth)
        } else {
            Ok(
                PeHeaders {
                    pe_offset: pe as usize,
                    section_count: le16(d, pe + 6) as usize,
                    optional_header_offset: (pe + 24) as usize,
                    optional_header_size: le16(d, pe + 20) as usize,
                    is_64: le16(d, pe + 24) == 0x20b,
                },
            )
        }
    }
}

/// Reads and checks the fixed headers of a PE buffer.
pub fn parse_headers(data: &[u8]) -> (r: Result<PeHeaders, PeError>)
    ensures
        r == headers_spec(data@),
        data@.len() < 64 ==> r == Err::<PeHeaders, PeError>(PeError::TooSmallForDosHeader),
        r is Ok ==> r->Ok_0.optional_header_offset + 2 <= data@.len(),
{
    let len = data.len();
    if len < 64 {
        return Err(PeError::TooSmallForDosHeader);
    }
    if read_u16(data, 0) != DOS_MAGIC {
        return Err(PeError::BadDosMagic);
    }
    let pe = read_u32(data, 60) as usize;
    if !fits(len, pe, 4) {
        return Err(PeError::TooSmallForPeSignature);
    }
    if read_u32(data, pe) != PE_SIGNATURE {
        return Err(PeError::BadPeSignature);
    }
    if !fits(len, pe, 24) {
        return Err(PeError::TooSmallForCoffHeader);
    }
    if !fits(len, pe, 26) {
        return Err(PeError::TooSmallForOptionalHeader);
    }
    let magic = read_u16(data, pe + 24);
    if magic != PE32_MAGIC && magic != PE32_PLUS_MAGIC {
        return Err(PeError::UnsupportedBitWidth);
    }
    Ok(
        PeHeaders {
            pe_offset: pe,
            section_count: read_u16(data, pe + 6) as usize,
            optional_header_offset: pe + 24,
            optional_header_size: read_u16(data, pe + 20) as usize,
            is_64: magic == PE32_PLUS_MAGIC,
        },
    )
}

/// The section header at offset `o`.
pub open spec fn section_at(d: Seq<u8>, o: int) -> PeSection {
    PeSection {
        virtual_size: le32(d, o + 8) as u32,
        virtual_address: le32(d, o + 12) as u32,
        raw_data_size: le32(d, o + 16) as u32,
        raw_data_offset: le32(d, o + 20) as u32,
    }
}

/// `secs` is the section table of up to `n` entries starting at `start`: the
/// entries are read in order and reading stops at the first one that does not
/// fit in the buffer.
pub open spec fn is_section_table(d: Seq<u8>, start: int, n: int, secs: Seq<PeSection>) -> bool {
    &&& secs.len() <= n
    &&& forall|j: int|
        0 <= j < secs.len() ==> start + 40 * (j + 1) <= d.len() && #[trigger] secs[j]
            == section_at(d, start + 40 * j)
    &&& (secs.len() == n || start + 40 * (secs.len() + 1) > d.len())
}

/// The section table of up to `n` entries at `start`, cut at the first entry
/// that does not fit in the buffer.
pub open spec fn section_table(d: Seq<u8>, start: int, n: int) -> Seq<PeSection>
    decreases n,
{
    if n <= 0 || start + 40 > d.len() {
        Seq::empty()
    } else {
        seq![section_at(d, start)] + section_table(d, start + 40, n - 1)
    }
}

/// Reads up to `count` section headers starting at `start`.
pub fn read_sections(data: &[u8], start: usize, count: usize) -> (r: Vec<PeSection>)
    ensures
        is_section_table(data@, start as int, count as int, r@),
        r@ == section_table(data@, start as int, count as int),
{
    let len = data.len();
    let mut secs: Vec<PeSection> = Vec::new();
    let mut i: usize = 0;
    let mut off: usize = start;
    assert(secs@ + section_table(data@, start as int, count as int) =~= section_table(
        data@,
        start as int,
        count as int,
    ));
    while i < count && fits(len, off, SECTION_HEADER_SIZE)
        invariant
            len == data@.len(),
            i <= count,
            i == secs@.len(),
            off == start + 40 * i,
            i > 0 ==> off <= len,
            secs@ + section_table(data@, off as int, count - i) == section_table(
                data@,
                start as int,
                count as int,
            ),
            forall|j: int| 0 <= j < i ==> #[trigger] secs@[j] == section_at(data@, start + 40 * j),
        decreases count - i,
    {
        let s = PeSection {
            virtual_size: read_u32(data, off + 8),
            virtual_address: read_u32(data, off + 12),
            raw_data_size: read_u32(data, off + 16),
            raw_data_offset: read_u32(data, off + 20),
        };
        let ghost before = secs@;
        secs.push(s);
        assert(secs@ + section_table(data@, off + 40, count - i - 1) =~= before + section_table(
            data@,
            off as int,
            count - i,
        ));
        i = i + 1;
        off = off + SECTION_HEADER_SIZE;
    }
    assert(secs@ + section_table(data@, off as int, count - i) =~= secs@);
    secs
}

/// The file offset of an RVA: through the first section whose virtual range holds it.
pub open spec fn file_offset(secs: Seq<PeSection>, rva: int) -> Option<int>
    decreases secs.len(),
{
    if secs.len() == 0 {
        None
    } else if secs[0].virtual_address <= rva < secs[0].virtual_address + secs[0].virtual_size {
        Some(rva - secs[0].virtual_address + secs[0].raw_data_offset)
    } else {
        file_offset(secs.drop_first(), rva)
    }
}

/// The file offset of an RVA, where it is one that a buffer index can hold.
pub open spec fn offset_of_rva(secs: Seq<PeSection>, rva: int) -> Option<usize> {
    match file_offset(secs, rva) {
        Some(o) => if o <= usize::MAX {
            Some(o as usize)
        } else {
            None
        },
        None => None,
    }
}

/// Maps an RVA to a file offset through the section table.
pub fn rva_to_offset(secs: &Vec<PeSection>, rva: usize) -> (r: Option<usize>)
    ensures
        r == offset_of_rva(secs@, rva as int),
{
    let mut i: usize = 0;
    assert(secs@.subrange(0, secs@.len() as int) =~= secs@);
    while i < secs.len()
        invariant
            i <= secs@.len(),
            file_offset(secs@, rva as int) == file_offset(secs@.subrange(i as int, secs@.len() as int), rva as int),
        decreases secs@.len() - i,
    {
        let s = secs[i];
        let ghost rest = secs@.subrange(i as int, secs@.len() as int);
        assert(rest[0] == s);
        let va = s.virtual_address as usize;
        if va <= rva && rva - va < s.virtual_size as usize {
            if rva - va > usize::MAX - (s.raw_data_offset as usize) {
                // the sum exceeds any buffer length
                return None;
            }
            return Some(rva - va + s.raw_data_offset as usize);
        }
        assert(rest.drop_first() =~= secs@.subrange(i + 1, secs@.len() as int));
        i = i + 1;
    }
    None
}

} // verus!

verus! {

/// Every section header of the table (up to `n`, those that fit in the
/// buffer) declares a virtual range that ends within `size` bytes.
pub open spec fn sections_within(d: Seq<u8>, start: int, n: int, size: int) -> bool {
    forall|j: int|
        0 <= j < n && start + 40 * (j + 1) <= d.len() ==> #[trigger] section_at(d, start + 40 * j).virtual_address
            + section_at(d, start + 40 * j).virtual_size <= size
}

/// An absent directory (zero RVA or size), or one that ends within `size` bytes.
pub open spec fn directory_within(dir: DataDirectory, size: int) -> bool {
    dir.rva == 0 || dir.size == 0 || dir.rva + dir.size <= size
}

/// The checks a 64-bit image must pass before it is mapped, in the order they are made.
pub open spec fn image_check(d: Seq<u8>) -> Result<PeHeaders, PeError> {
    match headers_spec(d) {
        Err(e) => Err(e),
        Ok(h) => {
            let o = h.optional_header_offset as int;
            if !h.is_64 {
                Err(PeError::UnsupportedBitWidth)
            } else if d.len() < o + 112 {
                Err(PeError::OptionalHeaderTooSmall)
            } else if le32(d, o + 16) >= le32(d, o + 56) {
                Err(PeError::EntryPointOutOfRange)
            } else if !sections_within(
                d,
                o + h.optional_header_size,
                h.section_count as int,
                le32(d, o + 56),
            ) {
                Err(PeError::SectionOutOfRange)
            } else if !directory_within(directory64(d, o, 1), le32(d, o + 56)) || !directory_within(
                directory64(d, o, 5),
                le32(d, o + 56),
            ) {
                Err(PeError::DirectoryOutOfRange)
            } else {
                Ok(h)
            }
        },
    }
}

/// The data directory at index `k` of a 64-bit optional header at `o`, or an
/// empty one where the header is too short to hold it.
pub open spec fn directory64(d: Seq<u8>, o: int, k: int) -> DataDirectory {
    if d.len() >= o + 112 + 8 * (k + 1) {
        DataDirectory {
            rva: le32(d, o + 112 + 8 * k) as u32,
            size: le32(d, o + 112 + 8 * k + 4) as u32,
        }
    } else {
        DataDirectory { rva: 0, size: 0 }
    }
}

/// The fields of `img` are those that the headers `h` of `d` declare.
pub open spec fn image_fields(d: Seq<u8>, h: PeHeaders, img: PeImage) -> bool {
    let o = h.optional_header_offset as int;
    &&& img.headers == h
    &&& img.entry_point_rva == le32(d, o + 16)
    &&& img.image_base == le64(d, o + 24)
    &&& img.size_of_image == le32(d, o + 56)
    &&& img.size_of_headers == le32(d, o + 60)
    &&& img.import_directory == directory64(d, o, 1)
    &&& img.relocation_directory == directory64(d, o, 5)
    &&& is_section_table(d, o + h.optional_header_size, h.section_count as int, img.sections@)
}

/// The image declares an entry point, sections and directories that lie inside its size.
pub open spec fn image_in_bounds(img: PeImage) -> bool {
    &&& img.entry_point_rva < img.size_of_image
    &&& directory_within(img.import_directory, img.size_of_image as int)
    &&& directory_within(img.relocation_directory, img.size_of_image as int)
    &&& forall|j: int|
        0 <= j < img.sections@.len() ==> #[trigger] img.sections@[j].virtual_address
            + img.sections@[j].virtual_size <= img.size_of_image
}

fn directory_fits(dir: DataDirectory, size: u32) -> (r: bool)
    ensures
        r == directory_within(dir, size as int),
{
    dir.rva == 0 || dir.size == 0 || dir.rva as u64 + dir.size as u64 <= size as u64
}

fn read_directory64(data: &[u8], o: usize, k: usize) -> (r: DataDirectory)
    requires
        o + 112 <= data@.len(),
        k < 16,
    ensures
        r == directory64(data@, o as int, k as int),
{
    if fits(data.len(), o, 112 + 8 * (k + 1)) {
        DataDirectory { rva: read_u32(data, o + 112 + 8 * k), size: read_u32(data, o + 116 + 8 * k) }
    } else {
        DataDirectory { rva: 0, size: 0 }
    }
}

/// Parses a 64-bit image for mapping, checking that everything it declares
/// lies inside the buffer and inside the declared image size.
pub fn parse_image(data: &[u8]) -> (r: Result<PeImage, PeError>)
    ensures
        match image_check(data@) {
            Err(e) => r == Err::<PeImage, PeError>(e),
            Ok(h) => r is Ok && image_fields(data@, h, r->Ok_0),
        },
        data@.len() < 64 ==> r == Err::<PeImage, PeError>(PeError::TooSmallForDosHeader),
        r is Ok ==> image_in_bounds(r->Ok_0),
{
    let h = match parse_headers(data) {
        Ok(h) => h,
        Err(e) => return Err(e),
    };
    if !h.is_64 {
        return Err(PeError::UnsupportedBitWidth);
    }
    let o = h.optional_header_offset;
    if !fits(data.len(), o, 112) {
        return Err(PeError::OptionalHeaderTooSmall);
    }
    let entry_point_rva = read_u32(data, o + 16);
    let image_base = read_u64(data, o + 24);
    let size_of_image = read_u32(data, o + 56);
    let size_of_headers = read_u32(data, o + 60);
    if entry_point_rva >= size_of_image {
        return Err(PeError::EntryPointOutOfRange);
    }
    let ghost start = o + h.optional_header_size;
    let sections = if o <= usize::MAX - h.optional_header_size {
        read_sections(data, o + h.optional_header_size, h.section_count)
    } else {
        Vec::new()
    };
    let ghost n = h.section_count as int;
    let ghost size = size_of_image as int;
    let mut i: usize = 0;
    while i < sections.len()
        invariant
            i <= sections@.len(),
            size == size_of_image as int,
            size == le32(data@, o + 56),
            entry_point_rva < size_of_image,
            entry_point_rva == le32(data@, o + 16),
            headers_spec(data@) == Ok::<PeHeaders, PeError>(h),
            h.is_64,
            o == h.optional_header_offset,
            o + 112 <= data@.len(),
            start == o + h.optional_header_size,
            n == h.section_count,
            is_section_table(data@, start, n, sections@),
            forall|j: int|
                0 <= j < i ==> #[trigger] sections@[j].virtual_address + sections@[j].virtual_size
                    <= size,
        decreases sections@.len() - i,
    {
        let s = sections[i];
        if s.virtual_address as u64 + s.virtual_size as u64 > size_of_image as u64 {
            proof {
                let j = i as int;
                assert(sections@[j] == section_at(data@, start + 40 * j));
                assert(0 <= j < n && start + 40 * (j + 1) <= data@.len());
                assert(!(section_at(data@, start + 40 * j).virtual_address + section_at(
                    data@,
                    start + 40 * j,
                ).virtual_size <= size));
            }
            assert(!sections_within(data@, start, n, size));
            return Err(PeError::SectionOutOfRange);
        }
        i = i + 1;
    }
    assert forall|j: int|
        0 <= j < n && start + 40 * (j + 1) <= data@.len() implies #[trigger] section_at(
        data@,
        start + 40 * j,
    ).virtual_address + section_at(data@, start + 40 * j).virtual_size <= size by {
        if j >= sections@.len() {
            assert(start + 40 * (sections@.len() + 1) <= start + 40 * (j + 1));
        }
        assert(sections@[j] == section_at(data@, start + 40 * j));
    }
    let import_directory = read_directory64(data, o, 1);
    let relocation_directory = read_directory64(data, o, 5);
    if !directory_fits(import_directory, size_of_image) || !directory_fits(
        relocation_directory,
        size_of_image,
    ) {
        return Err(PeError::DirectoryOutOfRange);
    }
    Ok(
        PeImage {
            headers: h,
            entry_point_rva,
            image_base,
            size_of_image,
            size_of_headers,
            import_directory,
            relocation_directory,
            sections,
        },
    )
}

} // verus!
