use dioprocess::mapping::{
    apply_relocations, import_requests, map_image, relocate_staged, stage_image, write_iat_entry,
    ImportSymbol,
};
use dioprocess::pe::{parse_image, DataDirectory};

fn put32(b: &mut Vec<u8>, o: usize, v: u32) {
    b[o..o + 4].copy_from_slice(&v.to_le_bytes());
}

fn put64(b: &mut Vec<u8>, o: usize, v: u64) {
    b[o..o + 8].copy_from_slice(&v.to_le_bytes());
}

fn sample() -> Vec<u8> {
    let mut b = vec![0u8; 0x400];
    b[0] = b'M';
    b[1] = b'Z';
    put32(&mut b, 60, 0x40);
    put32(&mut b, 0x40, 0x4550);
    b[0x46] = 1;
    b[0x54] = 0xF0;
    let opt = 0x58;
    b[opt] = 0x0b;
    b[opt + 1] = 0x02;
    put32(&mut b, opt + 16, 0x1000);
    put64(&mut b, opt + 24, 0x1_8000_0000);
    put32(&mut b, opt + 56, 0x3000);
    put32(&mut b, opt + 60, 0x200);
    put32(&mut b, opt + 120, 0x1100);
    put32(&mut b, opt + 124, 40);
    let sec = opt + 0xF0;
    put32(&mut b, sec + 8, 0x2000);
    put32(&mut b, sec + 12, 0x1000);
    put32(&mut b, sec + 16, 0x200);
    put32(&mut b, sec + 20, 0x200);
    put32(&mut b, 0x300, 0x1140);
    put32(&mut b, 0x30C, 0x1180);
    put32(&mut b, 0x310, 0x1160);
    put64(&mut b, 0x340, 0x11A0);
    put64(&mut b, 0x348, 0x8000_0000_0000_0005);
    put64(&mut b, 0x360, 0x11A0);
    put64(&mut b, 0x368, 0x8000_0000_0000_0005);
    b[0x380..0x38C].copy_from_slice(b"KERNEL32.dll");
    b[0x3A2..0x3A7].copy_from_slice(b"Sleep");
    b
}

#[test]
fn sections_land_at_virtual_offsets() {
    let data = sample();
    let img = parse_image(&data).unwrap();
    let mapped = map_image(&data, &img);
    assert_eq!(mapped.len(), 0x3000);
    assert_eq!(&mapped[..0x200], &data[..0x200]);
    assert_eq!(&mapped[0x1000..0x1200], &data[0x200..0x400]);
    assert!(mapped[0x200..0x1000].iter().all(|&x| x == 0));
    assert!(mapped[0x1200..].iter().all(|&x| x == 0));
}

#[test]
fn zero_delta_leaves_image_unchanged() {
    let mut img = vec![0u8; 0x40];
    // one block at RVA 0x20: page 0, size 12, a DIR64 entry at 0x0 and a HIGHLOW at 0x8
    put32(&mut img, 0x20, 0);
    put32(&mut img, 0x24, 12);
    img[0x28..0x2A].copy_from_slice(&0xA000u16.to_le_bytes());
    img[0x2A..0x2C].copy_from_slice(&0x3008u16.to_le_bytes());
    put64(&mut img, 0, 0x1_8000_1000);
    let before = img.clone();
    apply_relocations(&mut img, DataDirectory { rva: 0x20, size: 12 }, 0);
    assert_eq!(img, before);
}

#[test]
fn relocations_patch_fields() {
    let mut img = vec![0u8; 0x40];
    put32(&mut img, 0x20, 0);
    put32(&mut img, 0x24, 14);
    img[0x28..0x2A].copy_from_slice(&0xA000u16.to_le_bytes());
    img[0x2A..0x2C].copy_from_slice(&0x3008u16.to_le_bytes());
    img[0x2C..0x2E].copy_from_slice(&0x0000u16.to_le_bytes());
    put64(&mut img, 0, 0x1_8000_1000);
    put32(&mut img, 8, 0xFFFF_FFF0);
    apply_relocations(&mut img, DataDirectory { rva: 0x20, size: 14 }, 0x20);
    assert_eq!(u64::from_le_bytes(img[0..8].try_into().unwrap()), 0x1_8000_1020);
    assert_eq!(u32::from_le_bytes(img[8..12].try_into().unwrap()), 0x10);
    // negative delta, written modulo 2^64
    let mut img2 = vec![0u8; 0x40];
    put32(&mut img2, 0x20, 0);
    put32(&mut img2, 0x24, 10);
    img2[0x28..0x2A].copy_from_slice(&0xA000u16.to_le_bytes());
    put64(&mut img2, 0, 0x10);
    apply_relocations(&mut img2, DataDirectory { rva: 0x20, size: 10 }, 0u64.wrapping_sub(0x20));
    assert_eq!(u64::from_le_bytes(img2[0..8].try_into().unwrap()), 0xFFFF_FFFF_FFFF_FFF0);
}

#[test]
fn relocation_entries_past_the_image_are_skipped() {
    let mut img = vec![0u8; 0x30];
    put32(&mut img, 0x20, 0x28);
    put32(&mut img, 0x24, 10);
    img[0x28..0x2A].copy_from_slice(&0xA004u16.to_le_bytes());
    let before = img.clone();
    apply_relocations(&mut img, DataDirectory { rva: 0x20, size: 10 }, 5);
    assert_eq!(img, before);
}

#[test]
fn imports_of_mapped_image() {
    let data = sample();
    let staged = stage_image(&data).unwrap();
    let reqs = import_requests(&staged.bytes, staged.image.import_directory);
    assert_eq!(reqs.len(), 1);
    assert_eq!(reqs[0].dll_name, b"KERNEL32.dll".to_vec());
    assert_eq!(reqs[0].slots.len(), 2);
    assert_eq!(reqs[0].slots[0].iat_offset, 0x1160);
    assert!(matches!(&reqs[0].slots[0].symbol, ImportSymbol::Name(n) if n == b"Sleep"));
    assert_eq!(reqs[0].slots[1].iat_offset, 0x1168);
    assert!(matches!(reqs[0].slots[1].symbol, ImportSymbol::Ordinal(5)));
    let none = import_requests(&staged.bytes, DataDirectory { rva: 0, size: 0 });
    assert!(none.is_empty());
}

#[test]
fn iat_writes_stay_inside() {
    let mut img = vec![0u8; 16];
    write_iat_entry(&mut img, 8, 0x1122_3344_5566_7788);
    assert_eq!(u64::from_le_bytes(img[8..16].try_into().unwrap()), 0x1122_3344_5566_7788);
    let before = img.clone();
    write_iat_entry(&mut img, 9, 1);
    assert_eq!(img, before);
}

#[test]
fn staged_image_relocates_to_remote_base() {
    let data = sample();
    let mut staged = stage_image(&data).unwrap();
    let before = staged.bytes.clone();
    // no relocation directory: nothing changes whatever the base
    relocate_staged(&mut staged, 0x7FF0_0000_0000);
    assert_eq!(staged.bytes, before);
}
