//! The DLLs that an executable needs beside it.
use crate::bytes::{u16_at, u32_at};
use crate::text::{ascii_lowercase, begins_with, push_text, same_text, starts_with_text, texts};
use vstd::prelude::*;
use vstd::string::*;

verus! {

/// System DLLs that should NOT be bundled (lowercase for comparison)
pub const SYSTEM_DLLS: [&'static str; 51] = [
    "kernel32.dll",
    "user32.dll",
    "gdi32.dll",
    "ntdll.dll",
    "advapi32.dll",
    "shell32.dll",
    "ole32.dll",
    "oleaut32.dll",
    "comctl32.dll",
    "comdlg32.dll",
    "ws2_32.dll",
    "wsock32.dll",
    "msvcrt.dll",
    "ucrtbase.dll",
    "msvcp140.dll",
    "vcruntime140.dll",
    "vcruntime140_1.dll",
    "api-ms-win-crt-runtime-l1-1-0.dll",
    "api-ms-win-crt-heap-l1-1-0.dll",
    "api-ms-win-crt-math-l1-1-0.dll",
    "api-ms-win-crt-stdio-l1-1-0.dll",
    "api-ms-win-crt-string-l1-1-0.dll",
    "api-ms-win-crt-locale-l1-1-0.dll",
    "api-ms-win-crt-time-l1-1-0.dll",
    "api-ms-win-crt-convert-l1-1-0.dll",
    "api-ms-win-crt-environment-l1-1-0.dll",
    "api-ms-win-crt-filesystem-l1-1-0.dll",
    "api-ms-win-crt-process-l1-1-0.dll",
    "api-ms-win-crt-utility-l1-1-0.dll",
    "bcrypt.dll",
    "crypt32.dll",
    "secur32.dll",
    "shlwapi.dll",
    "imm32.dll",
    "winmm.dll",
    "setupapi.dll",
    "cfgmgr32.dll",
    "wintrust.dll",
    "version.dll",
    "d3d11.dll",
    "dxgi.dll",
    "opengl32.dll",
    "dbghelp.dll",
    "psapi.dll",
    "iphlpapi.dll",
    "userenv.dll",
    "powrprof.dll",
    "rpcrt4.dll",
    "sspicli.dll",
    "nsi.dll",
    "normaliz.dll",
];

/// The lower-case form of a text that holds a character outside ASCII.
pub uninterp spec fn unicode_lowercase(s: Seq<char>) -> Seq<char>;

/// Whether all characters are in ASCII.
pub open spec fn all_ascii(s: Seq<char>) -> bool {
    forall|i: int| 0 <= i < s.len() ==> (#[trigger] s[i] as u32) < 128
}

/// The lower-case form of a text.
pub open spec fn lowercase(s: Seq<char>) -> Seq<char> {
    if all_ascii(s) {
        ascii_lowercase(s)
    } else {
        unicode_lowercase(s)
    }
}

/// `str::to_lowercase`: in ASCII the letters from A to Z become those from a to
/// z, and all else stays. For a text beyond ASCII the result is named.
#[verifier::external_body]
fn to_lowercase_text(s: &str) -> (r: String)
    ensures
        all_ascii(s@) ==> r@ == ascii_lowercase(s@),
        !all_ascii(s@) ==> r@ == unicode_lowercase(s@),
{
    s.to_lowercase()
}

/// Whether a name, in lower case, is that of a system DLL: one of the list, or
/// one of the API sets.
pub open spec fn is_system_name(lower: Seq<char>) -> bool {
    (exists|i: int| 0 <= i < SYSTEM_DLLS@.len() && lower == #[trigger] SYSTEM_DLLS@[i]@)
        || begins_with(lower, "api-ms-win-"@)
}

/// Whether a DLL comes with Windows, whatever the case of its name.
pub open spec fn is_system(name: Seq<char>) -> bool {
    is_system_name(lowercase(name))
}

/// Whether a DLL comes with Windows, whatever the case of its name.
pub fn is_system_dll(name: &str) -> (r: bool)
    ensures
        r == is_system(name@),
{
    let lower = to_lowercase_text(name);
    let mut i: usize = 0;
    while i < SYSTEM_DLLS.len()
        invariant
            i <= SYSTEM_DLLS@.len(),
            lower@ == lowercase(name@),
            forall|k: int| 0 <= k < i ==> lower@ != #[trigger] SYSTEM_DLLS@[k]@,
        decreases SYSTEM_DLLS@.len() - i,
    {
        if same_text(&lower, SYSTEM_DLLS[i]) {
            return true;
        }
        i = i + 1;
    }
    starts_with_text(&lower, "api-ms-win-")
}

/// The names that an executable imports from, as its import table lists them:
/// of each entry nothing where its name cannot be found, and an inner nothing
/// where its name is not UTF-8. Without a table there is no list. For bytes that
/// are no executable it is the message of the parser.
pub uninterp spec fn import_table(data: Seq<u8>) -> Result<
    Option<Seq<Option<Option<Seq<char>>>>>,
    Seq<char>,
>;

/// What an import table read as names stands for.
pub open spec fn table_view(table: Option<Vec<Option<Option<String>>>>) -> Option<
    Seq<Option<Option<Seq<char>>>>,
> {
    match table {
        Some(v) => Some(v@.map_values(|e: Option<Option<String>>| entry_view(e))),
        None => None,
    }
}

/// What an entry of an import table stands for.
pub open spec fn entry_view(e: Option<Option<String>>) -> Option<Option<Seq<char>>> {
    match e {
        Some(Some(s)) => Some(Some(s@)),
        Some(None) => Some(None),
        None => None,
    }
}

/// What the import table of an executable, or the reason why there is none,
/// stands for.
pub open spec fn imports_view(
    r: Result<Option<Vec<Option<Option<String>>>>, String>,
) -> Result<Option<Seq<Option<Option<Seq<char>>>>>, Seq<char>> {
    match r {
        Ok(table) => Ok(table_view(table)),
        Err(e) => Err(e@),
    }
}

/// Whether bytes begin as an executable does, and hold the header that says
/// where its sections are.
pub open spec fn has_file_header(data: Seq<u8>) -> bool {
    &&& data.len() >= 64
    &&& data[0] == 0x4D
    &&& data[1] == 0x5A
    &&& u32_at(data, 60) + 26 <= data.len()
}

/// Where the header of an executable begins.
pub open spec fn header_at(data: Seq<u8>) -> int {
    u32_at(data, 60) as int
}

/// Where the list of an executable's tables begins: behind the fields of a
/// 64-bit or of a 32-bit header.
pub open spec fn tables_at(data: Seq<u8>) -> Option<int> {
    let kind = u16_at(data, header_at(data) + 24);
    if kind == 0x20B {
        Some(header_at(data) + 136)
    } else if kind == 0x10B {
        Some(header_at(data) + 120)
    } else {
        None
    }
}

/// Where the import table is in memory, if the header says so.
pub open spec fn table_address(data: Seq<u8>) -> Option<nat> {
    match tables_at(data) {
        Some(at) => if at + 16 <= data.len() && u32_at(data, at - 4) >= 2 {
            Some(u32_at(data, at + 8))
        } else {
            None
        },
        None => None,
    }
}

/// Where the header of a section stands.
pub open spec fn section_at(data: Seq<u8>, k: int) -> int {
    header_at(data) + 24 + u16_at(data, header_at(data) + 20) + 40 * k
}

/// Whether an address in memory lies in a section.
pub open spec fn holds_address(data: Seq<u8>, k: int, address: nat) -> bool {
    let at = section_at(data, k);
    let start = u32_at(data, at + 12);
    let size = u32_at(data, at + 8);
    let raw_size = u32_at(data, at + 16);
    &&& at + 40 <= data.len()
    &&& start <= address
    &&& address < (start + if size > raw_size {
        size
    } else {
        raw_size
    }) % 0x1_0000_0000
}

/// Whether a section lies in the file as it lies in memory, modulo four.
pub open spec fn is_section_aligned(data: Seq<u8>, k: int) -> bool {
    u32_at(data, section_at(data, k) + 20) % 4 == u32_at(data, section_at(data, k) + 12) % 4
}

/// Whether the import table can be read in place where its section lies in the
/// file: the headers of the sections are at multiples of four, and so is the
/// table.
pub open spec fn is_table_aligned(data: Seq<u8>, address: nat) -> bool {
    &&& u16_at(data, header_at(data) + 20) % 4 == 0
    &&& forall|k: int|
        0 <= k < u16_at(data, header_at(data) + 6) && #[trigger] holds_address(data, k, address)
            && (forall|j: int| 0 <= j < k ==> !#[trigger] holds_address(data, j, address))
            ==> is_section_aligned(data, k)
}

/// Whether the import table of an executable can be read in place. Where the
/// header or the table's address is no multiple of four, nothing is read.
pub open spec fn is_aligned(data: Seq<u8>) -> bool {
    has_file_header(data) && header_at(data) % 4 == 0 ==> match table_address(data) {
        Some(address) => address != 0 && address % 4 == 0 ==> is_table_aligned(data, address),
        None => true,
    }
}

/// How far behind a multiple of eight bytes have to lie so that the header of
/// an executable lies at one, where it lies at a multiple of four.
pub open spec fn header_skew(data: Seq<u8>) -> nat {
    if has_file_header(data) && header_at(data) % 8 == 4 {
        4
    } else {
        0
    }
}

fn read_u16(data: &[u8], at: usize) -> (n: u16)
    requires
        at + 2 <= data@.len(),
    ensures
        n == u16_at(data@, at as int),
{
    data[at] as u16 + 256 * data[at + 1] as u16
}

fn read_u32(data: &[u8], at: usize) -> (n: u32)
    requires
        at + 4 <= data@.len(),
    ensures
        n == u32_at(data@, at as int),
{
    data[at] as u32 + 256 * data[at + 1] as u32 + 65536 * data[at + 2] as u32 + 16777216 * data[at
        + 3] as u32
}

fn find_header(data: &[u8]) -> (r: Option<usize>)
    ensures
        match r {
            Some(header) => has_file_header(data@) && header == header_at(data@),
            None => !has_file_header(data@),
        },
{
    if data.len() < 64 || data[0] != 0x4D || data[1] != 0x5A {
        return None;
    }
    let offset: u32 = read_u32(data, 60);
    if offset as u64 > (data.len() - 26) as u64 {
        None
    } else {
        Some(offset as usize)
    }
}

fn find_table(data: &[u8], header: usize) -> (r: Option<u32>)
    requires
        has_file_header(data@),
        header == header_at(data@),
    ensures
        match (r, table_address(data@)) {
            (Some(address), Some(expected)) => address == expected,
            (None, None) => true,
            _ => false,
        },
{
    let len: usize = data.len();
    let kind: u16 = read_u16(data, header + 24);
    let from_header: usize = if kind == 0x20B {
        136
    } else if kind == 0x10B {
        120
    } else {
        return None;
    };
    if len - header < from_header + 16 {
        return None;
    }
    let at: usize = header + from_header;
    if read_u32(data, at - 4) >= 2 {
        Some(read_u32(data, at + 8))
    } else {
        None
    }
}

/// Whether the import table of an executable can be read in place.
pub fn can_be_read(data: &[u8]) -> (r: bool)
    ensures
        r == is_aligned(data@),
{
    let header: usize = match find_header(data) {
        Some(header) => header,
        None => return true,
    };
    if header % 4 != 0 {
        return true;
    }
    let address: u32 = match find_table(data, header) {
        Some(address) => address,
        None => return true,
    };
    if address == 0 || address % 4 != 0 {
        return true;
    }
    let len: usize = data.len();
    let optional: u16 = read_u16(data, header + 20);
    if optional % 4 != 0 {
        return false;
    }
    let count: u16 = read_u16(data, header + 6);
    let mut k: u16 = 0;
    while k < count
        invariant
            len == data@.len(),
            has_file_header(data@),
            header == header_at(data@),
            optional == u16_at(data@, header + 20),
            count == u16_at(data@, header + 6),
            header + 26 <= len,
            header % 4 == 0,
            optional % 4 == 0,
            address != 0,
            address % 4 == 0,
            table_address(data@) == Some(address as nat),
            forall|j: int| 0 <= j < k ==> !#[trigger] holds_address(data@, j, address as nat),
        decreases count - k,
    {
        let at: u64 = header as u64 + 24 + optional as u64 + 40 * k as u64;
        assert(at == section_at(data@, k as int));
        if at + 40 <= len as u64 {
            let place: usize = at as usize;
            let size: u32 = read_u32(data, place + 8);
            let start: u32 = read_u32(data, place + 12);
            let raw_size: u32 = read_u32(data, place + 16);
            let longer: u32 = if size > raw_size {
                size
            } else {
                raw_size
            };
            let end: u64 = (start as u64 + longer as u64) % 0x1_0000_0000;
            if start <= address && (address as u64) < end {
                let raw_start: u32 = read_u32(data, place + 20);
                assert(holds_address(data@, k as int, address as nat));
                let aligned = raw_start % 4 == start % 4;
                assert(aligned == is_section_aligned(data@, k as int));
                return aligned;
            }
        }
        assert(!holds_address(data@, k as int, address as nat));
        k = k + 1;
    }
    true
}

fn skew(data: &[u8]) -> (n: usize)
    ensures
        n == header_skew(data@),
{
    match find_header(data) {
        Some(header) => if header % 8 == 4 {
            4
        } else {
            0
        },
        None => 0,
    }
}

/// `pelite::PeFile::from_bytes`, the import directory of the file that it finds,
/// and the DLL name of each import, in order. The result depends on the bytes
/// alone. The parser reads the headers and the import table in place, so the
/// bytes are first copied to a place where the header lies at a multiple of
/// eight, and the table has to be aligned in the file. Fewer than sixty-four
/// bytes are refused with the message of a failed bounds check.
#[verifier::external_body]
fn pe_imports(data: &[u8], skew: usize) -> (r: Result<Option<Vec<Option<Option<String>>>>, String>)
    requires
        is_aligned(data@),
        skew == header_skew(data@),
    ensures
        imports_view(r) == import_table(data@),
        data@.len() < 64 ==> r is Err && r->Err_0@ == "bounds check failed"@,
{
    let mut held: Vec<u8> = Vec::with_capacity(data.len() + 16);
    let start: usize = held.as_ptr().align_offset(8) + skew;
    held.resize(start, 0);
    held.extend_from_slice(data);
    let file = pelite::PeFile::from_bytes(&held[start..]).map_err(|e| e.to_string())?;
    let names = file.imports().ok().map(
        |imports|
            imports.iter().map(
                |desc| desc.dll_name().ok().map(|name| name.to_str().ok().map(|s| s.to_string())),
            ).collect(),
    );
    Ok(names)
}

/// The name that an entry is looked for under.
pub open spec fn entry_name(e: Option<Option<Seq<char>>>) -> Option<Seq<char>> {
    match e {
        Some(Some(name)) => Some(name),
        Some(None) => Some(""@),
        None => None,
    }
}

/// The DLLs to look for beside an executable: those that its table names and
/// that do not come with Windows, in order.
pub open spec fn needed_of(table: Seq<Option<Option<Seq<char>>>>) -> Seq<Seq<char>>
    decreases table.len(),
{
    if table.len() == 0 {
        Seq::empty()
    } else {
        let rest = needed_of(table.drop_last());
        match entry_name(table.last()) {
            Some(name) if !is_system(name) => rest.push(name),
            _ => rest,
        }
    }
}

/// The DLLs to look for beside an executable with that import table.
pub open spec fn needed(table: Option<Seq<Option<Option<Seq<char>>>>>) -> Seq<Seq<char>> {
    match table {
        Some(t) => needed_of(t),
        None => Seq::empty(),
    }
}

/// The DLLs to look for, given the names that the import table lists.
pub fn needed_dlls(table: &Option<Vec<Option<Option<String>>>>) -> (r: Vec<String>)
    ensures
        texts(r@) == needed(table_view(*table)),
{
    let mut r: Vec<String> = Vec::new();
    match table {
        Some(v) => {
            let ghost all = v@.map_values(|e: Option<Option<String>>| entry_view(e));
            let mut i: usize = 0;
            assert(texts(r@) =~= needed_of(all.take(0)));
            while i < v.len()
                invariant
                    i <= v@.len(),
                    all == v@.map_values(|e: Option<Option<String>>| entry_view(e)),
                    texts(r@) == needed_of(all.take(i as int)),
                decreases v@.len() - i,
            {
                assert(all.take(i + 1).drop_last() =~= all.take(i as int));
                assert(all.take(i + 1).last() == entry_view(v@[i as int]));
                match &v[i] {
                    Some(Some(name)) => {
                        if !is_system_dll(name) {
                            push_text(&mut r, name);
                        }
                    },
                    Some(None) => {
                        if !is_system_dll("") {
                            push_text(&mut r, "");
                        }
                    },
                    None => {},
                }
                i = i + 1;
            }
            assert(all.take(all.len() as int) =~= all);
        },
        None => {
            assert(texts(r@) =~= Seq::empty());
        },
    }
    r
}

/// Scan PE imports using pelite: the non-system DLLs to look for in the same
/// directory as the binary, or why the binary could not be read: it is no
/// executable, or its import table is so misaligned that it cannot be read in
/// place.
pub fn scan_dlls(data: &[u8]) -> (r: Result<Vec<String>, String>)
    ensures
        if !is_aligned(data@) {
            r matches Err(e) && e@ == "address misaligned"@
        } else {
            match import_table(data@) {
                Ok(table) => r matches Ok(names) && texts(names@) == needed(table),
                Err(message) => r matches Err(e) && e@ == message,
            }
        },
        data@.len() < 64 ==> r is Err && r->Err_0@ == "bounds check failed"@,
{
    if !can_be_read(data) {
        return Err("address misaligned".to_owned());
    }
    match pe_imports(data, skew(data)) {
        Ok(table) => Ok(needed_dlls(&table)),
        Err(e) => Err(e),
    }
}

/// Whether a DLL is copied: it stands beside the binary, and not yet in the
/// bundle.
pub fn copies_dll(beside_binary: bool, in_bundle: bool) -> (r: bool)
    ensures
        r == (beside_binary && !in_bundle),
{
    beside_binary && !in_bundle
}

/// No DLL that comes with Windows is ever bundled.
pub proof fn lemma_system_dlls_are_not_needed(table: Seq<Option<Option<Seq<char>>>>, k: int)
    requires
        0 <= k < needed_of(table).len(),
    ensures
        !is_system(needed_of(table)[k]),
    decreases table.len(),
{
    if table.len() > 0 {
        let rest = needed_of(table.drop_last());
        if k < rest.len() {
            lemma_system_dlls_are_not_needed(table.drop_last(), k);
        }
    }
}

/// Every DLL that the import table names and that does not come with Windows is
/// looked for.
pub proof fn lemma_other_dlls_are_needed(table: Seq<Option<Option<Seq<char>>>>, k: int)
    requires
        0 <= k < table.len(),
        entry_name(table[k]) matches Some(name) && !is_system(name),
    ensures
        needed_of(table).contains(entry_name(table[k])->Some_0),
    decreases table.len(),
{
    let rest = needed_of(table.drop_last());
    let name = entry_name(table[k])->Some_0;
    if k == table.len() - 1 {
        assert(needed_of(table).last() == name);
    } else {
        lemma_other_dlls_are_needed(table.drop_last(), k);
        let i = choose|i: int| 0 <= i < rest.len() && rest[i] == name;
        assert(needed_of(table)[i] == name);
    }
}

} // verus!
