use vstd::prelude::*;

use crate::bytes::{fits, le32, le64, read_u32, read_u64};
use crate::pe::{
    headers_spec, offset_of_rva, parse_headers, read_sections, rva_to_offset, section_table,
    PeSection,
};
use crate::text::{cstring_text, decimal, push_decimal, push_str, read_cstring};

verus! {

/// One imported module and the symbols imported from it, in table order.
#[derive(Clone, Debug)]
pub struct ImportEntry {
    pub dll_name: String,
    pub functions: Vec<String>,
}

/// An import entry as text: the module name and the symbol names.
pub open spec fn import_view(e: ImportEntry) -> (Seq<char>, Seq<Seq<char>>) {
    (e.dll_name@, e.functions@.map_values(|f: String| f@))
}

pub open spec fn imports_view(v: Seq<ImportEntry>) -> Seq<(Seq<char>, Seq<Seq<char>>)> {
    v.map_values(|e: ImportEntry| import_view(e))
}

/// The value of the thunk at `off`: eight bytes in a 64-bit image, four otherwise.
pub open spec fn thunk_value(d: Seq<u8>, off: int, is_64: bool) -> u64 {
    if is_64 {
        le64(d, off) as u64
    } else {
        le32(d, off) as u64
    }
}

pub open spec fn thunk_size(is_64: bool) -> int {
    if is_64 {
        8
    } else {
        4
    }
}

/// The bit that marks an import by ordinal.
pub open spec fn ordinal_flag(is_64: bool) -> u64 {
    if is_64 {
        0x8000_0000_0000_0000u64
    } else {
        0x8000_0000u64
    }
}

/// How one non-zero thunk reads: "Ordinal #n", the imported name, or nothing
/// where the name lies outside the buffer.
pub open spec fn thunk_entry(d: Seq<u8>, secs: Seq<PeSection>, v: u64, is_64: bool) -> Seq<
    Seq<char>,
> {
    if v & ordinal_flag(is_64) != 0 {
        seq!["Ordinal #"@ + decimal((v & 0xFFFFu64) as nat)]
    } else {
        match offset_of_rva(secs, (v & 0x7FFF_FFFFu64) as int) {
            Some(h) => if d.len() > h + 2 {
                seq![cstring_text(d, h + 2)]
            } else {
                Seq::empty()
            },
            None => Seq::empty(),
        }
    }
}

/// The symbols of a thunk array at file offset `off`, up to its zero entry or
/// the end of the buffer.
pub open spec fn thunk_names(d: Seq<u8>, secs: Seq<PeSection>, off: int, is_64: bool) -> Seq<
    Seq<char>,
>
    decreases d.len() - off,
{
    if off < 0 || off + thunk_size(is_64) > d.len() {
        Seq::empty()
    } else {
        let v = thunk_value(d, off, is_64);
        if v == 0 {
            Seq::empty()
        } else {
            thunk_entry(d, secs, v, is_64) + thunk_names(d, secs, off + thunk_size(is_64), is_64)
        }
    }
}

/// The entries of the import descriptor array at file offset `desc`, up to
/// its null descriptor or the end of the buffer.
pub open spec fn import_list(d: Seq<u8>, secs: Seq<PeSection>, desc: int, is_64: bool) -> Seq<
    (Seq<char>, Seq<Seq<char>>),
>
    decreases d.len() - desc,
{
    if desc < 0 || desc + 20 > d.len() {
        Seq::empty()
    } else {
        let ilt = le32(d, desc);
        let name = le32(d, desc + 12);
        if ilt == 0 && name == 0 {
            Seq::empty()
        } else {
            let dll = match offset_of_rva(secs, name) {
                Some(o) => cstring_text(d, o as int),
                None => "(unknown)"@,
            };
            let thunk = if ilt != 0 {
                ilt
            } else {
                le32(d, desc + 16)
            };
            let funcs = match offset_of_rva(secs, thunk) {
                Some(t) => thunk_names(d, secs, t as int, is_64),
                None => Seq::empty(),
            };
            seq![(dll, funcs)] + import_list(d, secs, desc + 20, is_64)
        }
    }
}

/// The imports that a PE file on disk declares; empty where it is malformed
/// or declares none.
pub open spec fn imports_spec(d: Seq<u8>) -> Seq<(Seq<char>, Seq<Seq<char>>)> {
    match headers_spec(d) {
        Err(_) => Seq::empty(),
        Ok(h) => {
            let o = h.optional_header_offset as int;
            let dir = if h.is_64 {
                o + 120
            } else {
                o + 104
            };
            if d.len() < dir + 8 {
                Seq::empty()
            } else if le32(d, dir) == 0 || le32(d, dir + 4) == 0 {
                Seq::empty()
            } else {
                let secs = section_table(
                    d,
                    o + h.optional_header_size,
                    h.section_count as int,
                );
                match offset_of_rva(secs, le32(d, dir)) {
                    Some(start) => import_list(d, secs, start as int, h.is_64),
                    None => Seq::empty(),
                }
            }
        },
    }
}

fn read_thunk(data: &[u8], off: usize, is_64: bool) -> (v: u64)
    requires
        off + thunk_size(is_64) <= data@.len(),
    ensures
        v == thunk_value(data@, off as int, is_64),
{
    if is_64 {
        read_u64(data, off)
    } else {
        read_u32(data, off) as u64
    }
}

fn thunk_symbols(data: &[u8], secs: &Vec<PeSection>, start: usize, is_64: bool) -> (r: Vec<
    String,
>)
    ensures
        r@.map_values(|f: String| f@) == thunk_names(data@, secs@, start as int, is_64),
{
    let step: usize = if is_64 {
        8
    } else {
        4
    };
    let flag: u64 = if is_64 {
        0x8000_0000_0000_0000u64
    } else {
        0x8000_0000u64
    };
    let mut out: Vec<String> = Vec::new();
    let mut off = start;
    while fits(data.len(), off, step)
        invariant
            step == thunk_size(is_64),
            flag == ordinal_flag(is_64),
            out@.map_values(|f: String| f@) + thunk_names(data@, secs@, off as int, is_64)
                == thunk_names(data@, secs@, start as int, is_64),
        ensures
            thunk_names(data@, secs@, off as int, is_64) =~= Seq::<Seq<char>>::empty(),
            out@.map_values(|f: String| f@) + thunk_names(data@, secs@, off as int, is_64)
                == thunk_names(data@, secs@, start as int, is_64),
        decreases data@.len() - off,
    {
        let v = read_thunk(data, off, is_64);
        if v == 0 {
            break;
        }
        let ghost before = out@.map_values(|f: String| f@);
        if v & flag != 0 {
            let mut name = String::new();
            push_str(&mut name, "Ordinal #");
            push_decimal(&mut name, v & 0xFFFFu64);
            assert(name@ =~= "Ordinal #"@ + decimal((v & 0xFFFFu64) as nat));
            out.push(name);
        } else {
            assert(v & 0x7FFF_FFFFu64 <= 0x7FFF_FFFFu64) by (bit_vector);
            match rva_to_offset(secs, (v & 0x7FFF_FFFFu64) as usize) {
                Some(h) => {
                    if data.len() > 2 && h < data.len() - 2 {
                        out.push(read_cstring(data, h + 2));
                    }
                },
                None => {},
            }
        }
        assert(out@.map_values(|f: String| f@) =~= before + thunk_entry(data@, secs@, v, is_64));
        off = off + step;
    }
    assert(out@.map_values(|f: String| f@) + thunk_names(data@, secs@, off as int, is_64)
        =~= out@.map_values(|f: String| f@));
    out
}

/// Lists the imports that a PE file declares, module by module, reading the
/// import directory through the section table. A malformed file, or one
/// without imports, gives an empty list.
pub fn parse_imports(data: &[u8]) -> (r: Vec<ImportEntry>)
    ensures
        imports_view(r@) == imports_spec(data@),
        data@.len() < 64 ==> r@.len() == 0,
{
    let mut out: Vec<ImportEntry> = Vec::new();
    let len = data.len();
    let h = match parse_headers(data) {
        Ok(h) => h,
        Err(_) => return out,
    };
    let o = h.optional_header_offset;
    let dir_field: usize = if h.is_64 {
        120
    } else {
        104
    };
    if !fits(len, o, dir_field + 8) {
        return out;
    }
    let dir = o + dir_field;
    let dir_rva = read_u32(data, dir);
    let dir_size = read_u32(data, dir + 4);
    if dir_rva == 0 || dir_size == 0 {
        return out;
    }
    let secs = if o <= usize::MAX - h.optional_header_size {
        read_sections(data, o + h.optional_header_size, h.section_count)
    } else {
        Vec::new()
    };
    assert(secs@ == section_table(data@, o + h.optional_header_size, h.section_count as int));
    let start = match rva_to_offset(&secs, dir_rva as usize) {
        Some(s) => s,
        None => return out,
    };
    let mut desc = start;
    while fits(data.len(), desc, 20)
        invariant
            imports_view(out@) + import_list(data@, secs@, desc as int, h.is_64) == import_list(
                data@,
                secs@,
                start as int,
                h.is_64,
            ),
        ensures
            import_list(data@, secs@, desc as int, h.is_64) =~= Seq::<
                (Seq<char>, Seq<Seq<char>>),
            >::empty(),
            imports_view(out@) + import_list(data@, secs@, desc as int, h.is_64) == import_list(
                data@,
                secs@,
                start as int,
                h.is_64,
            ),
        decreases data@.len() - desc,
    {
        let ilt = read_u32(data, desc);
        let name_rva = read_u32(data, desc + 12);
        if ilt == 0 && name_rva == 0 {
            break;
        }
        let dll_name = match rva_to_offset(&secs, name_rva as usize) {
            Some(n) => read_cstring(data, n),
            None => {
                let mut u = String::new();
                push_str(&mut u, "(unknown)");
                assert(u@ =~= "(unknown)"@);
                u
            },
        };
        let thunk = if ilt != 0 {
            ilt
        } else {
            read_u32(data, desc + 16)
        };
        let functions = match rva_to_offset(&secs, thunk as usize) {
            Some(t) => thunk_symbols(data, &secs, t, h.is_64),
            None => Vec::new(),
        };
        let ghost before = imports_view(out@);
        assert(dll_name@ == match offset_of_rva(secs@, le32(data@, desc as int + 12)) {
            Some(o) => cstring_text(data@, o as int),
            None => "(unknown)"@,
        });
        assert(thunk == (if ilt != 0 { le32(data@, desc as int) } else { le32(data@, desc + 16) }));
        assert(functions@.map_values(|f: String| f@) == match offset_of_rva(secs@, thunk as int) {
            Some(t) => thunk_names(data@, secs@, t as int, h.is_64),
            None => Seq::empty(),
        });
        let entry = ImportEntry { dll_name, functions };
        assert(import_list(data@, secs@, desc as int, h.is_64) == seq![import_view(entry)]
            + import_list(data@, secs@, desc + 20, h.is_64));
        out.push(entry);
        assert(imports_view(out@) =~= before + seq![import_view(entry)]);
        desc = desc + 20;
    }
    assert(imports_view(out@) + import_list(data@, secs@, desc as int, h.is_64) =~= imports_view(
        out@,
    ));
    out
}

} // verus!
