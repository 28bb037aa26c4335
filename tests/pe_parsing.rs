use dioprocess::imports::parse_imports;
use dioprocess::pe::{parse_headers, parse_image, rva_to_offset, PeError, PeSection};

fn put16(b: &mut Vec<u8>, o: usize, v: u16) {
    b[o..o + 2].copy_from_slice(&v.to_le_bytes());
}

fn put32(b: &mut Vec<u8>, o: usize, v: u32) {
    b[o..o + 4].copy_from_slice(&v.to_le_bytes());
}

fn put64(b: &mut Vec<u8>, o: usize, v: u64) {
    b[o..o + 8].copy_from_slice(&v.to_le_bytes());
}

/// A small 64-bit DLL: one section at RVA 0x1000 backed by file offset 0x200,
/// importing `Sleep` by name and ordinal 5 from KERNEL32.dll.
fn sample_pe64() -> Vec<u8> {
    let mut b = vec![0u8; 0x400];
    put16(&mut b, 0, 0x5A4D);
    put32(&mut b, 60, 0x40);
    put32(&mut b, 0x40, 0x4550);
    let coff = 0x44;
    put16(&mut b, coff + 2, 1);
    put16(&mut b, coff + 16, 0xF0);
    let opt = 0x58;
    put16(&mut b, opt, 0x20b);
    put32(&mut b, opt + 16, 0x1000);
    put64(&mut b, opt + 24, 0x1_8000_0000);
    put32(&mut b, opt + 56, 0x3000);
    put32(&mut b, opt + 60, 0x200);
    put32(&mut b, opt + 120, 0x1100);
    put32(&mut b, opt + 124, 40);
    put32(&mut b, opt + 152, 0x2000);
    put32(&mut b, opt + 156, 12);
    let sec = opt + 0xF0;
    put32(&mut b, sec + 8, 0x2000);
    put32(&mut b, sec + 12, 0x1000);
    put32(&mut b, sec + 16, 0x200);
    put32(&mut b, sec + 20, 0x200);
    // import descriptor at RVA 0x1100 (file 0x300)
    put32(&mut b, 0x300, 0x1140);
    put32(&mut b, 0x300 + 12, 0x1180);
    put32(&mut b, 0x300 + 16, 0x1160);
    // lookup table at 0x340: by name, by ordinal, end
    put64(&mut b, 0x340, 0x11A0);
    put64(&mut b, 0x348, 0x8000_0000_0000_0005);
    // address table at 0x360 mirrors it
    put64(&mut b, 0x360, 0x11A0);
    put64(&mut b, 0x368, 0x8000_0000_0000_0005);
    b[0x380..0x380 + 12].copy_from_slice(b"KERNEL32.dll");
    b[0x3A2..0x3A2 + 5].copy_from_slice(b"Sleep");
    b
}

#[test]
fn short_buffers_are_malformed() {
    for n in 0..64 {
        let b = vec![0x4Du8; n];
        assert_eq!(parse_headers(&b), Err(PeError::TooSmallForDosHeader));
        assert!(matches!(parse_image(&b), Err(PeError::TooSmallForDosHeader)));
        assert!(parse_imports(&b).is_empty());
    }
}

#[test]
fn bad_dos_magic_is_rejected() {
    let mut b = sample_pe64();
    b[0] = b'X';
    b[1] = b'X';
    assert_eq!(parse_headers(&b), Err(PeError::BadDosMagic));
    assert!(matches!(parse_image(&b), Err(PeError::BadDosMagic)));
}

#[test]
fn truncated_and_bad_signature() {
    let mut b = sample_pe64();
    put32(&mut b, 60, 0x3FE);
    assert_eq!(parse_headers(&b), Err(PeError::TooSmallForPeSignature));
    let mut b = sample_pe64();
    b[0x41] = b'X';
    assert_eq!(parse_headers(&b), Err(PeError::BadPeSignature));
    let b = sample_pe64()[..0x50].to_vec();
    assert_eq!(parse_headers(&b), Err(PeError::TooSmallForCoffHeader));
    let b = sample_pe64()[..0x59].to_vec();
    assert_eq!(parse_headers(&b), Err(PeError::TooSmallForOptionalHeader));
    let mut b = sample_pe64();
    put16(&mut b, 0x58, 0x107);
    assert_eq!(parse_headers(&b), Err(PeError::UnsupportedBitWidth));
}

#[test]
fn pe32_is_not_mapped() {
    let mut b = sample_pe64();
    put16(&mut b, 0x58, 0x10b);
    assert!(parse_headers(&b).unwrap().is_64 == false);
    assert!(matches!(parse_image(&b), Err(PeError::UnsupportedBitWidth)));
}

#[test]
fn optional_header_too_small() {
    let b = sample_pe64()[..0x58 + 100].to_vec();
    assert!(matches!(parse_image(&b), Err(PeError::OptionalHeaderTooSmall)));
}

#[test]
fn image_fields_are_read() {
    let b = sample_pe64();
    let img = parse_image(&b).unwrap();
    assert_eq!(img.headers.pe_offset, 0x40);
    assert_eq!(img.headers.section_count, 1);
    assert_eq!(img.entry_point_rva, 0x1000);
    assert_eq!(img.image_base, 0x1_8000_0000);
    assert_eq!(img.size_of_image, 0x3000);
    assert_eq!(img.size_of_headers, 0x200);
    assert_eq!(img.import_directory.rva, 0x1100);
    assert_eq!(img.import_directory.size, 40);
    assert_eq!(img.relocation_directory.rva, 0x2000);
    assert_eq!(
        img.sections,
        vec![PeSection { virtual_address: 0x1000, virtual_size: 0x2000, raw_data_size: 0x200, raw_data_offset: 0x200 }]
    );
    // every accepted image keeps its entry point and sections inside its size
    assert!(img.entry_point_rva < img.size_of_image);
    for s in &img.sections {
        assert!(s.virtual_address as u64 + s.virtual_size as u64 <= img.size_of_image as u64);
    }
}

#[test]
fn entry_point_outside_image_is_rejected() {
    let mut b = sample_pe64();
    put32(&mut b, 0x58 + 16, 0x3000);
    assert!(matches!(parse_image(&b), Err(PeError::EntryPointOutOfRange)));
}

#[test]
fn section_outside_image_is_rejected() {
    let mut b = sample_pe64();
    put32(&mut b, 0x58 + 0xF0 + 8, 0x2001);
    assert!(matches!(parse_image(&b), Err(PeError::SectionOutOfRange)));
}

#[test]
fn rva_maps_through_sections() {
    let secs = vec![
        PeSection { virtual_address: 0x1000, virtual_size: 0x100, raw_data_size: 0x100, raw_data_offset: 0x400 },
        PeSection { virtual_address: 0x2000, virtual_size: 0x100, raw_data_size: 0x100, raw_data_offset: 0x600 },
    ];
    assert_eq!(rva_to_offset(&secs, 0x1010), Some(0x410));
    assert_eq!(rva_to_offset(&secs, 0x20FF), Some(0x6FF));
    assert_eq!(rva_to_offset(&secs, 0x1100), None);
    assert_eq!(rva_to_offset(&secs, 0x500), None);
}

#[test]
fn imports_are_listed() {
    let b = sample_pe64();
    let imports = parse_imports(&b);
    assert_eq!(imports.len(), 1);
    assert_eq!(imports[0].dll_name, "KERNEL32.dll");
    assert_eq!(imports[0].functions, vec!["Sleep".to_string(), "Ordinal #5".to_string()]);
}

#[test]
fn imports_fall_back_to_address_table_and_unknown_name() {
    let mut b = sample_pe64();
    put32(&mut b, 0x300, 0);
    put32(&mut b, 0x300 + 12, 0x9000);
    let imports = parse_imports(&b);
    assert_eq!(imports.len(), 1);
    assert_eq!(imports[0].dll_name, "(unknown)");
    assert_eq!(imports[0].functions, vec!["Sleep".to_string(), "Ordinal #5".to_string()]);
}

#[test]
fn imports_of_pe32() {
    let mut b = sample_pe64();
    put16(&mut b, 0x58, 0x10b);
    // PE32 import directory entry sits at optional header + 104
    put32(&mut b, 0x58 + 104, 0x1100);
    put32(&mut b, 0x58 + 108, 40);
    // four-byte thunks: name, ordinal 7, end
    put64(&mut b, 0x340, 0);
    put64(&mut b, 0x348, 0);
    put32(&mut b, 0x340, 0x11A0);
    put32(&mut b, 0x344, 0x8000_0007);
    let imports = parse_imports(&b);
    assert_eq!(imports.len(), 1);
    assert_eq!(imports[0].functions, vec!["Sleep".to_string(), "Ordinal #7".to_string()]);
}

#[test]
fn no_import_directory_gives_nothing() {
    let mut b = sample_pe64();
    put32(&mut b, 0x58 + 124, 0);
    assert!(parse_imports(&b).is_empty());
}

#[test]
fn directory_outside_image_is_rejected() {
    let mut b = sample_pe64();
    put32(&mut b, 0x58 + 156, 0x1001);
    assert!(matches!(parse_image(&b), Err(PeError::DirectoryOutOfRange)));
    let mut b = sample_pe64();
    put32(&mut b, 0x58 + 120, 0x2FF0);
    assert!(matches!(parse_image(&b), Err(PeError::DirectoryOutOfRange)));
    // an absent directory is never out of range
    let mut b = sample_pe64();
    put32(&mut b, 0x58 + 152, 0x9000);
    put32(&mut b, 0x58 + 156, 0);
    assert!(parse_image(&b).is_ok());
}
